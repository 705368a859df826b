//! Reading of the MACD line against its signal line.

use vstd::prelude::*;
use crate::common::sign::Sign;

verus! {

/// What the MACD says at one candle.
#[derive(Debug, Clone, Copy, PartialEq, Eq, Structural)]
pub enum MACDSignal {
    BullishCross,
    BearishCross,
    BullishMomentum,
    BearishMomentum,
    Neutral,
}

impl MACDSignal {
    /// What the reading adds to the momentum score: a cross counts 2,
    /// persisting momentum 1.
    pub open spec fn delta(self) -> int {
        match self {
            MACDSignal::BullishCross => 2,
            MACDSignal::BearishCross => -2,
            MACDSignal::BullishMomentum => 1,
            MACDSignal::BearishMomentum => -1,
            MACDSignal::Neutral => 0,
        }
    }

    /// The reasons the reading leaves in the trail: only a cross is named.
    pub open spec fn reasons(self) -> Seq<Seq<char>> {
        match self {
            MACDSignal::BullishCross => seq!["MACD bullish cross"@],
            MACDSignal::BearishCross => seq!["MACD bearish cross"@],
            _ => Seq::empty(),
        }
    }
}

/// How the MACD line stands against its signal line and against zero after
/// a candle, and how it stood after the one before.
#[derive(Debug, Clone, Copy, PartialEq, Eq, Structural)]
pub struct MacdComparison {
    /// MACD minus signal line, after the candle before.
    pub previous_spread: Sign,
    /// MACD minus signal line, now.
    pub spread: Sign,
    /// The MACD line itself.
    pub level: Sign,
    /// MACD now minus MACD before.
    pub slope: Sign,
}

impl MACDSignal {
    /// The reading of the line. A cross of the signal line comes first;
    /// without one, a line above zero and rising, or below zero and falling,
    /// is momentum. The first candle is neutral.
    pub open spec fn classify_spec(comparison: Option<MacdComparison>) -> MACDSignal {
        match comparison {
            None => MACDSignal::Neutral,
            Some(c) => {
                if c.previous_spread != Sign::Positive && c.spread == Sign::Positive {
                    MACDSignal::BullishCross
                } else if c.previous_spread != Sign::Negative && c.spread == Sign::Negative {
                    MACDSignal::BearishCross
                } else if c.level == Sign::Positive && c.slope == Sign::Positive {
                    MACDSignal::BullishMomentum
                } else if c.level == Sign::Negative && c.slope == Sign::Negative {
                    MACDSignal::BearishMomentum
                } else {
                    MACDSignal::Neutral
                }
            },
        }
    }

    /// Classifies the line after one candle; `None` on the first candle.
    pub fn classify(comparison: Option<MacdComparison>) -> (signal: MACDSignal)
        ensures
            signal == Self::classify_spec(comparison),
    {
        match comparison {
            None => MACDSignal::Neutral,
            Some(c) => {
                if !matches!(c.previous_spread, Sign::Positive) && matches!(
                    c.spread,
                    Sign::Positive
                ) {
                    MACDSignal::BullishCross
                } else if !matches!(c.previous_spread, Sign::Negative) && matches!(
                    c.spread,
                    Sign::Negative
                ) {
                    MACDSignal::BearishCross
                } else if matches!(c.level, Sign::Positive) && matches!(c.slope, Sign::Positive) {
                    MACDSignal::BullishMomentum
                } else if matches!(c.level, Sign::Negative) && matches!(c.slope, Sign::Negative) {
                    MACDSignal::BearishMomentum
                } else {
                    MACDSignal::Neutral
                }
            },
        }
    }
}

/// A cross is reported exactly when the line changes sides of its signal
/// line, whatever its level and slope, and momentum never on such a candle.
pub proof fn lemma_cross_outranks_momentum(
    previous_macd: int,
    previous_signal: int,
    macd: int,
    signal: int,
)
    ensures
        ({
            let reading = MACDSignal::classify_spec(
                Some(
                    MacdComparison {
                        previous_spread: Sign::of(previous_macd - previous_signal),
                        spread: Sign::of(macd - signal),
                        level: Sign::of(macd),
                        slope: Sign::of(macd - previous_macd),
                    },
                ),
            );
            &&& reading == MACDSignal::BullishCross <==> previous_macd <= previous_signal && macd
                > signal
            &&& reading == MACDSignal::BearishCross <==> previous_macd >= previous_signal && macd
                < signal
            &&& reading == MACDSignal::BullishMomentum ==> macd > 0 && macd > previous_macd
            &&& reading == MACDSignal::BearishMomentum ==> macd < 0 && macd < previous_macd
        }),
{
}

} // verus!
