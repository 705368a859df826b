//! Momentum indicators.

pub mod macd;
pub mod rsi;
