//! The logic of a system monitor: parsing what the kernel exposes about
//! GPUs, deciding when to raise threshold notifications, resolving the
//! colour theme and the interface language.
pub mod i18n;
pub mod monitor;
pub mod text;
pub mod theme;
pub mod ui;
