//! The records that leave the library.

pub mod signal;
pub mod strategy;
