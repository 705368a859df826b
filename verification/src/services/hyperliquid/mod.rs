//! Messages and subscription keys of the Hyperliquid stream.

pub mod client;
pub mod messages;
pub mod subscriptions;
