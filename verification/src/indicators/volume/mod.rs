//! Volume indicators.

pub mod obv;
pub mod volume_profile;
