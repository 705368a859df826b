//! What the indicators share.

pub mod sign;
pub mod window;
