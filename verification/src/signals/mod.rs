//! From indicator readings to a recommendation.

pub mod decision;
pub mod engine;
