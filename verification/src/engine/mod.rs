//! Scoring policy: bias, position, confidence and risk.

pub mod aggregator;
pub mod signal;
