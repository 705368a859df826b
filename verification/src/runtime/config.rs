//! Settings of the periodic evaluation.

use vstd::prelude::*;

verus! {

/// How often to evaluate, and which symbols.
#[derive(Debug, Clone)]
pub struct RuntimeConfig {
    pub evaluation_interval_seconds: u64,
    pub symbols: Vec<String>,
}

impl Default for RuntimeConfig {
    /// Every 60 seconds, for `BTC-PERP` alone.
    fn default() -> (config: Self)
        ensures
            config.evaluation_interval_seconds == 60,
            config.symbols@.len() == 1,
            config.symbols@[0]@ == "BTC-PERP"@,
    {
        let mut symbols: Vec<String> = Vec::new();
        symbols.push(String::from_str("BTC-PERP"));
        RuntimeConfig { evaluation_interval_seconds: 60, symbols }
    }
}

} // verus!
