//! Trend indicators.

pub mod ema;
pub mod supertrend;
