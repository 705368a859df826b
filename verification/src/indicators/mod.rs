//! The categorical readings of the ten indicators, grouped by category,
//! with the registry of categories and the integer side of input parsing
//! and validation.

pub mod error;
pub mod momentum;
pub mod parser;
pub mod perp;
pub mod registry;
pub mod trend;
pub mod validation;
pub mod volatility;
pub mod volume;
