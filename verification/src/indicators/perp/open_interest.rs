//! Reading of the change in open interest against price.

use vstd::prelude::*;
use crate::common::sign::Sign;

verus! {

/// What open interest says at one candle.
#[derive(Debug, Clone, Copy, PartialEq, Eq, Structural)]
pub enum OpenInterestSignal {
    BullishExpansion,
    BearishExpansion,
    LongSqueeze,
    ShortSqueeze,
    Neutral,
}

impl OpenInterestSignal {
    /// What the reading adds to the perp score: an expansion counts 2 in
    /// its direction; a short squeeze 1 upward, a long squeeze 1 downward.
    pub open spec fn delta(self) -> int {
        match self {
            OpenInterestSignal::BullishExpansion => 2,
            OpenInterestSignal::BearishExpansion => -2,
            OpenInterestSignal::ShortSqueeze => 1,
            OpenInterestSignal::LongSqueeze => -1,
            OpenInterestSignal::Neutral => 0,
        }
    }

    /// The reasons the reading leaves in the trail.
    pub open spec fn reasons(self) -> Seq<Seq<char>> {
        match self {
            OpenInterestSignal::BullishExpansion => seq!["New money entering longs"@],
            OpenInterestSignal::BearishExpansion => seq!["New money entering shorts"@],
            OpenInterestSignal::ShortSqueeze => seq!["Potential short squeeze"@],
            OpenInterestSignal::LongSqueeze => seq!["Long squeeze in progress"@],
            OpenInterestSignal::Neutral => Seq::empty(),
        }
    }
}

/// How far open interest moved since the candle before: up by more than
/// two percent, down by more than two percent, or less.
#[derive(Debug, Clone, Copy, PartialEq, Eq, Structural)]
pub enum OpenInterestChange {
    Expanding,
    Contracting,
    Steady,
}

/// The move of open interest and of the price since the candle before.
#[derive(Debug, Clone, Copy, PartialEq, Eq, Structural)]
pub struct OpenInterestMove {
    pub change: OpenInterestChange,
    pub price_change: Sign,
}

impl OpenInterestSignal {
    /// The reading of open interest. Expanding interest is an expansion in
    /// the direction of the price. Contracting interest is a squeeze of those
    /// the price moves against: of the longs when it falls, of the shorts when
    /// it rises. A steady interest or a price that stands still is neutral, and
    /// so is the first sample (`None`).
    pub open spec fn classify_spec(latest: Option<OpenInterestMove>) -> OpenInterestSignal {
        match latest {
            None => OpenInterestSignal::Neutral,
            Some(m) => match (m.change, m.price_change) {
                (OpenInterestChange::Expanding, Sign::Positive) => {
                    OpenInterestSignal::BullishExpansion
                },
                (OpenInterestChange::Expanding, Sign::Negative) => {
                    OpenInterestSignal::BearishExpansion
                },
                (OpenInterestChange::Contracting, Sign::Negative) => {
                    OpenInterestSignal::LongSqueeze
                },
                (OpenInterestChange::Contracting, Sign::Positive) => {
                    OpenInterestSignal::ShortSqueeze
                },
                _ => OpenInterestSignal::Neutral,
            },
        }
    }

    /// Classifies the latest move of open interest; `None` on the first
    /// sample.
    pub fn classify(latest: Option<OpenInterestMove>) -> (signal: OpenInterestSignal)
        ensures
            signal == Self::classify_spec(latest),
    {
        match latest {
            None => OpenInterestSignal::Neutral,
            Some(m) => match (m.change, m.price_change) {
                (OpenInterestChange::Expanding, Sign::Positive) => {
                    OpenInterestSignal::BullishExpansion
                },
                (OpenInterestChange::Expanding, Sign::Negative) => {
                    OpenInterestSignal::BearishExpansion
                },
                (OpenInterestChange::Contracting, Sign::Negative) => {
                    OpenInterestSignal::LongSqueeze
                },
                (OpenInterestChange::Contracting, Sign::Positive) => {
                    OpenInterestSignal::ShortSqueeze
                },
                _ => OpenInterestSignal::Neutral,
            },
        }
    }
}

/// The perp score that open interest gives always leans the way the price
/// moved: never down on a rising price, never up on a falling one.
pub proof fn lemma_reading_follows_price(latest: OpenInterestMove)
    ensures
        latest.price_change == Sign::Positive ==> OpenInterestSignal::classify_spec(
            Some(latest),
        ).delta() >= 0,
        latest.price_change == Sign::Negative ==> OpenInterestSignal::classify_spec(
            Some(latest),
        ).delta() <= 0,
        latest.price_change == Sign::Zero || latest.change == OpenInterestChange::Steady
            <==> OpenInterestSignal::classify_spec(Some(latest)) == OpenInterestSignal::Neutral,
{
}

} // verus!
