//! Signal fusion for perpetual-futures markets: categorical indicator
//! readings are scored per category, summed into a bias, and turned into a
//! direction with a confidence and a risk level.

pub mod common;
pub mod engine;
pub mod indicators;
pub mod models;
pub mod runtime;
pub mod services;
pub mod signals;
