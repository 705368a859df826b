//! Reading of the fast/slow EMA pair.

use vstd::prelude::*;
use crate::common::sign::Sign;

verus! {

/// What the EMA pair says at one candle.
#[derive(Debug, Clone, Copy, PartialEq, Eq, Structural)]
pub enum EMATrendSignal {
    BullishCross,
    BearishCross,
    StrongUptrend,
    StrongDowntrend,
    Neutral,
}

impl EMATrendSignal {
    /// What the reading adds to the trend score: a cross counts 2, a strong
    /// trend structure 1, upward positive and downward negative.
    pub open spec fn delta(self) -> int {
        match self {
            EMATrendSignal::BullishCross => 2,
            EMATrendSignal::BearishCross => -2,
            EMATrendSignal::StrongUptrend => 1,
            EMATrendSignal::StrongDowntrend => -1,
            EMATrendSignal::Neutral => 0,
        }
    }

    /// The reasons the reading leaves in the trail.
    pub open spec fn reasons(self) -> Seq<Seq<char>> {
        match self {
            EMATrendSignal::BullishCross => seq!["Golden Cross EMA20/50"@],
            EMATrendSignal::BearishCross => seq!["Death Cross EMA20/50"@],
            EMATrendSignal::StrongUptrend => seq!["Strong uptrend structure"@],
            EMATrendSignal::StrongDowntrend => seq!["Strong downtrend structure"@],
            EMATrendSignal::Neutral => Seq::empty(),
        }
    }
}

/// How the fast and the slow average stand after a candle, and how they
/// stood after the one before.
#[derive(Debug, Clone, Copy, PartialEq, Eq, Structural)]
pub struct CrossoverComparison {
    /// Fast minus slow, after the candle before.
    pub previous_spread: Sign,
    /// Fast minus slow, now.
    pub spread: Sign,
    /// Price minus fast.
    pub price_to_fast: Sign,
    /// Fast now minus fast before.
    pub fast_slope: Sign,
}

impl EMATrendSignal {
    /// The reading of the pair. A cross comes first: bullish when the fast
    /// average was not above the slow one and now is, bearish the other way
    /// round. Without a cross, price and fast average on one side of the slow
    /// one and moving further that way make a strong trend. The first candle
    /// has nothing to compare with and is neutral.
    pub open spec fn classify_spec(comparison: Option<CrossoverComparison>) -> EMATrendSignal {
        match comparison {
            None => EMATrendSignal::Neutral,
            Some(c) => {
                if c.previous_spread != Sign::Positive && c.spread == Sign::Positive {
                    EMATrendSignal::BullishCross
                } else if c.previous_spread != Sign::Negative && c.spread == Sign::Negative {
                    EMATrendSignal::BearishCross
                } else if c.price_to_fast == Sign::Positive && c.spread == Sign::Positive
                    && c.fast_slope == Sign::Positive {
                    EMATrendSignal::StrongUptrend
                } else if c.price_to_fast == Sign::Negative && c.spread == Sign::Negative
                    && c.fast_slope == Sign::Negative {
                    EMATrendSignal::StrongDowntrend
                } else {
                    EMATrendSignal::Neutral
                }
            },
        }
    }

    /// Classifies the pair after one candle; `None` on the first candle.
    pub fn classify(comparison: Option<CrossoverComparison>) -> (signal: EMATrendSignal)
        ensures
            signal == Self::classify_spec(comparison),
    {
        match comparison {
            None => EMATrendSignal::Neutral,
            Some(c) => {
                let fast_above = matches!(c.spread, Sign::Positive);
                let fast_below = matches!(c.spread, Sign::Negative);
                if !matches!(c.previous_spread, Sign::Positive) && fast_above {
                    EMATrendSignal::BullishCross
                } else if !matches!(c.previous_spread, Sign::Negative) && fast_below {
                    EMATrendSignal::BearishCross
                } else if matches!(c.price_to_fast, Sign::Positive) && fast_above && matches!(
                    c.fast_slope,
                    Sign::Positive
                ) {
                    EMATrendSignal::StrongUptrend
                } else if matches!(c.price_to_fast, Sign::Negative) && fast_below && matches!(
                    c.fast_slope,
                    Sign::Negative
                ) {
                    EMATrendSignal::StrongDowntrend
                } else {
                    EMATrendSignal::Neutral
                }
            },
        }
    }
}

/// The comparison of a pair of averages given as numbers.
pub open spec fn comparison_of(
    previous_fast: int,
    previous_slow: int,
    fast: int,
    slow: int,
    price: int,
) -> CrossoverComparison {
    CrossoverComparison {
        previous_spread: Sign::of(previous_fast - previous_slow),
        spread: Sign::of(fast - slow),
        price_to_fast: Sign::of(price - fast),
        fast_slope: Sign::of(fast - previous_fast),
    }
}

/// What the classification means of the values themselves: a bullish cross
/// is reported exactly when the fast average was at or below the slow one and
/// now is above it, a bearish cross exactly in the mirrored case, and a
/// strong trend only while the fast average stays on its side.
pub proof fn lemma_cross_means_sides_changed(
    previous_fast: int,
    previous_slow: int,
    fast: int,
    slow: int,
    price: int,
)
    ensures
        ({
            let signal = EMATrendSignal::classify_spec(
                Some(comparison_of(previous_fast, previous_slow, fast, slow, price)),
            );
            &&& signal == EMATrendSignal::BullishCross <==> previous_fast <= previous_slow && fast
                > slow
            &&& signal == EMATrendSignal::BearishCross <==> previous_fast >= previous_slow && fast
                < slow
            &&& signal == EMATrendSignal::StrongUptrend <==> previous_fast > previous_slow && price
                > fast && fast > slow && fast > previous_fast
            &&& signal == EMATrendSignal::StrongDowntrend <==> previous_fast < previous_slow
                && price < fast && fast < slow && fast < previous_fast
        }),
{
}

} // verus!
