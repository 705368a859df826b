//! Volatility indicators.

pub mod atr;
pub mod bollinger;
