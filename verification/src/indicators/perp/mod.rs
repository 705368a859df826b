//! Indicators of perpetual-futures positioning.

pub mod funding_rate;
pub mod open_interest;
