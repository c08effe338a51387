//! Interface logic that does not depend on the toolkit.
pub mod settings;
