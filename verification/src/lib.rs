//! Trusted Publishing configuration for a crate on a registry: the requests the
//! registry's API expects, how its answers are read, and what the command line
//! reports about them.

pub mod api;
pub mod json;
pub mod report;
pub mod resolve;
pub mod text;
