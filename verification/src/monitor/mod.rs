//! System monitoring: GPU discovery and sampling decisions, and threshold
//! notifications.
pub mod gpu;
pub mod notify;
