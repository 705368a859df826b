//! Reading of the funding rate as a measure of crowding.

use vstd::prelude::*;

verus! {

/// How far, and to which side, the funding rate leans.
#[derive(Debug, Clone, Copy, PartialEq, Eq, Structural)]
pub enum FundingSignal {
    ExtremeLongBias,
    ExtremShortBias,
    HighLongBias,
    HighShortBias,
    NeutralPositive,
    NeutralNegative,
    Neutral,
}

impl FundingSignal {
    /// What the reading adds to the perp score. It is contrarian: crowded
    /// longs count 1 downward, crowded shorts 1 upward.
    pub open spec fn delta(self) -> int {
        match self {
            FundingSignal::ExtremeLongBias => -1,
            FundingSignal::ExtremShortBias => 1,
            _ => 0,
        }
    }

    /// The reasons the reading leaves in the trail.
    pub open spec fn reasons(self) -> Seq<Seq<char>> {
        match self {
            FundingSignal::ExtremeLongBias => seq!["Extreme long bias - caution"@],
            FundingSignal::ExtremShortBias => seq!["Extreme short bias - bounce potential"@],
            _ => Seq::empty(),
        }
    }

    pub open spec fn is_extreme_spec(self) -> bool {
        self == FundingSignal::ExtremeLongBias || self == FundingSignal::ExtremShortBias
    }

    /// True for the two extreme readings.
    #[verifier::when_used_as_spec(is_extreme_spec)]
    pub fn is_extreme(self) -> (extreme: bool)
        ensures
            extreme == self.is_extreme_spec(),
    {
        match self {
            FundingSignal::ExtremeLongBias | FundingSignal::ExtremShortBias => true,
            _ => false,
        }
    }
}

} // verus!
