//! Volatility regime read from the average true range.

use vstd::prelude::*;

verus! {

/// The current ATR against its own recent average.
#[derive(Debug, Clone, Copy, PartialEq, Eq, Structural)]
pub enum VolatilityRegime {
    High,
    Elevated,
    Normal,
    Low,
}

impl VolatilityRegime {
    /// The reasons the regime leaves in the trail. A regime never moves a
    /// score.
    pub open spec fn reasons(self) -> Seq<Seq<char>> {
        match self {
            VolatilityRegime::High => seq!["High volatility - reduce size"@],
            VolatilityRegime::Low => seq!["Low volatility - breakout potential"@],
            VolatilityRegime::Elevated => seq!["Elevated volatility"@],
            VolatilityRegime::Normal => Seq::empty(),
        }
    }
}

} // verus!
