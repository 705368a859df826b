//! Reading of the relative strength index.

use vstd::prelude::*;
use crate::common::sign::Sign;

verus! {

/// What the RSI says at one candle.
#[derive(Debug, Clone, Copy, PartialEq, Eq, Structural)]
pub enum RSISignal {
    Oversold,
    Overbought,
    BullishDivergence,
    BearishDivergence,
    Neutral,
}

impl RSISignal {
    /// What the reading adds to the momentum score: a divergence counts 2,
    /// an extreme 1; oversold is bullish, overbought bearish.
    pub open spec fn delta(self) -> int {
        match self {
            RSISignal::BullishDivergence => 2,
            RSISignal::BearishDivergence => -2,
            RSISignal::Oversold => 1,
            RSISignal::Overbought => -1,
            RSISignal::Neutral => 0,
        }
    }

    /// The reasons the reading leaves in the trail.
    pub open spec fn reasons(self) -> Seq<Seq<char>> {
        match self {
            RSISignal::BullishDivergence => seq!["RSI bullish divergence"@],
            RSISignal::BearishDivergence => seq!["RSI bearish divergence"@],
            RSISignal::Oversold => seq!["RSI oversold"@],
            RSISignal::Overbought => seq!["RSI overbought"@],
            RSISignal::Neutral => Seq::empty(),
        }
    }

    pub open spec fn is_divergence_spec(self) -> bool {
        self == RSISignal::BullishDivergence || self == RSISignal::BearishDivergence
    }

    /// True for the two divergence readings.
    #[verifier::when_used_as_spec(is_divergence_spec)]
    pub fn is_divergence(self) -> (divergent: bool)
        ensures
            divergent == self.is_divergence_spec(),
    {
        match self {
            RSISignal::BullishDivergence | RSISignal::BearishDivergence => true,
            _ => false,
        }
    }
}

/// Where the index stands: below 30, above 70, or between.
#[derive(Debug, Clone, Copy, PartialEq, Eq, Structural)]
pub enum RSIZone {
    Oversold,
    Overbought,
    Middle,
}

impl RSISignal {
    /// The reading of the index. In an extreme zone it is a divergence when
    /// the index moves against the price: oversold with price falling and the
    /// index rising, overbought with price rising and the index falling.
    /// `rsi_change` is `None` while there is no earlier index.
    pub open spec fn classify_spec(zone: RSIZone, price_change: Sign, rsi_change: Option<Sign>)
        -> RSISignal {
        match zone {
            RSIZone::Oversold => {
                if price_change == Sign::Negative && rsi_change == Some(Sign::Positive) {
                    RSISignal::BullishDivergence
                } else {
                    RSISignal::Oversold
                }
            },
            RSIZone::Overbought => {
                if price_change == Sign::Positive && rsi_change == Some(Sign::Negative) {
                    RSISignal::BearishDivergence
                } else {
                    RSISignal::Overbought
                }
            },
            RSIZone::Middle => RSISignal::Neutral,
        }
    }

    /// Classifies the index from its zone, the change of the price and the
    /// change of the index.
    pub fn classify(zone: RSIZone, price_change: Sign, rsi_change: Option<Sign>) -> (signal:
        RSISignal)
        ensures
            signal == Self::classify_spec(zone, price_change, rsi_change),
    {
        match zone {
            RSIZone::Oversold => {
                match (price_change, rsi_change) {
                    (Sign::Negative, Some(Sign::Positive)) => RSISignal::BullishDivergence,
                    _ => RSISignal::Oversold,
                }
            },
            RSIZone::Overbought => {
                match (price_change, rsi_change) {
                    (Sign::Positive, Some(Sign::Negative)) => RSISignal::BearishDivergence,
                    _ => RSISignal::Overbought,
                }
            },
            RSIZone::Middle => RSISignal::Neutral,
        }
    }
}

/// A divergence is only ever read in an extreme zone, and the middle zone
/// is always neutral.
pub proof fn lemma_divergence_only_at_extremes(
    zone: RSIZone,
    price_change: Sign,
    rsi_change: Option<Sign>,
)
    ensures
        RSISignal::classify_spec(zone, price_change, rsi_change).is_divergence_spec() ==> zone
            != RSIZone::Middle,
        zone == RSIZone::Middle <==> RSISignal::classify_spec(zone, price_change, rsi_change)
            == RSISignal::Neutral,
        RSISignal::classify_spec(zone, price_change, rsi_change).delta() >= 0 <==> zone
            != RSIZone::Overbought,
{
}

} // verus!
