//! Settings and status records of the running service.

pub mod config;
pub mod http;
