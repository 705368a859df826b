//! The vocabulary spoken with the market-data source.

pub mod hyperliquid;
