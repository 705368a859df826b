//! Reading of the SuperTrend trailing band.

use vstd::prelude::*;
use crate::common::sign::Sign;

verus! {

/// Which side of the active band the close is on; the flip variants mark
/// the one candle on which the side changed.
#[derive(Debug, Clone, Copy, PartialEq, Eq, Structural)]
pub enum SuperTrendSignal {
    Bullish,
    Bearish,
    BullishFlip,
    BearishFlip,
}

impl SuperTrendSignal {
    /// What the reading adds to the trend score: a flip counts 2, a steady
    /// side 1.
    pub open spec fn delta(self) -> int {
        match self {
            SuperTrendSignal::BullishFlip => 2,
            SuperTrendSignal::BearishFlip => -2,
            SuperTrendSignal::Bullish => 1,
            SuperTrendSignal::Bearish => -1,
        }
    }

    /// The reasons the reading leaves in the trail: only a flip is named.
    pub open spec fn reasons(self) -> Seq<Seq<char>> {
        match self {
            SuperTrendSignal::BullishFlip => seq!["SuperTrend flip bullish"@],
            SuperTrendSignal::BearishFlip => seq!["SuperTrend flip bearish"@],
            SuperTrendSignal::Bullish => Seq::empty(),
            SuperTrendSignal::Bearish => Seq::empty(),
        }
    }

    /// True for the two bullish readings.
    pub open spec fn is_bullish(self) -> bool {
        self == SuperTrendSignal::Bullish || self == SuperTrendSignal::BullishFlip
    }

    /// The reading for a candle whose close lies on the side `current`
    /// (`Bullish` or `Bearish`) when the candle before lay on `previous`.
    pub open spec fn transition_spec(
        previous: Option<SuperTrendSignal>,
        current: SuperTrendSignal,
    ) -> SuperTrendSignal {
        if previous == Some(SuperTrendSignal::Bearish) && current == SuperTrendSignal::Bullish {
            SuperTrendSignal::BullishFlip
        } else if previous == Some(SuperTrendSignal::Bullish) && current
            == SuperTrendSignal::Bearish {
            SuperTrendSignal::BearishFlip
        } else {
            current
        }
    }

    /// Marks the candle on which the side changes: a flip is reported once,
    /// on the transition, and the plain side on every other candle.
    pub fn transition(previous: Option<SuperTrendSignal>, current: SuperTrendSignal) -> (signal:
        SuperTrendSignal)
        ensures
            signal == Self::transition_spec(previous, current),
    {
        match (previous, current) {
            (Some(SuperTrendSignal::Bearish), SuperTrendSignal::Bullish) => {
                SuperTrendSignal::BullishFlip
            },
            (Some(SuperTrendSignal::Bullish), SuperTrendSignal::Bearish) => {
                SuperTrendSignal::BearishFlip
            },
            _ => current,
        }
    }
}

/// The band that trails the price: the upper one while the trend is down,
/// the lower one while it is up.
#[derive(Debug, Clone, Copy, PartialEq, Eq, Structural)]
pub enum ActiveBand {
    Upper,
    Lower,
}

impl ActiveBand {
    /// The band that is active after a candle. The upper band stays active
    /// until the close rises above it; the lower band, which is also the one
    /// a fresh tracker starts from, stays active until the close falls below
    /// it.
    pub open spec fn next_spec(
        previous: Option<ActiveBand>,
        close_to_upper: Sign,
        close_to_lower: Sign,
    ) -> ActiveBand {
        if previous == Some(ActiveBand::Upper) {
            if close_to_upper != Sign::Positive {
                ActiveBand::Upper
            } else {
                ActiveBand::Lower
            }
        } else {
            if close_to_lower != Sign::Negative {
                ActiveBand::Lower
            } else {
                ActiveBand::Upper
            }
        }
    }

    /// Flips the active band when the close crosses it. `close_to_upper`
    /// and `close_to_lower` are the signs of the close minus each band as it
    /// stands after this candle.
    pub fn next(previous: Option<ActiveBand>, close_to_upper: Sign, close_to_lower: Sign) -> (band:
        ActiveBand)
        ensures
            band == Self::next_spec(previous, close_to_upper, close_to_lower),
    {
        match previous {
            Some(ActiveBand::Upper) => {
                match close_to_upper {
                    Sign::Positive => ActiveBand::Lower,
                    _ => ActiveBand::Upper,
                }
            },
            _ => {
                match close_to_lower {
                    Sign::Negative => ActiveBand::Upper,
                    _ => ActiveBand::Lower,
                }
            },
        }
    }
}

impl SuperTrendSignal {
    /// The side of a close against the active band: bullish strictly above
    /// it, bearish on or below it.
    pub open spec fn side_spec(close_to_band: Sign) -> SuperTrendSignal {
        if close_to_band == Sign::Positive {
            SuperTrendSignal::Bullish
        } else {
            SuperTrendSignal::Bearish
        }
    }

    /// The side of a close against the active band.
    pub fn side(close_to_band: Sign) -> (signal: SuperTrendSignal)
        ensures
            signal == Self::side_spec(close_to_band),
    {
        match close_to_band {
            Sign::Positive => SuperTrendSignal::Bullish,
            _ => SuperTrendSignal::Bearish,
        }
    }
}

/// A flip is reported only on the candle on which the side changes: the
/// candle after a flip, the plain side is reported again for as long as the
/// close stays on it, and a bearish reading cannot follow a bullish side
/// while the close stays above the band.
pub proof fn lemma_flip_is_one_shot(previous: SuperTrendSignal, close_to_band: Sign)
    requires
        previous == SuperTrendSignal::Bullish || previous == SuperTrendSignal::Bearish,
    ensures
        ({
            let current = SuperTrendSignal::side_spec(close_to_band);
            let reported = SuperTrendSignal::transition_spec(Some(previous), current);
            let following = SuperTrendSignal::transition_spec(Some(current), current);
            &&& reported.is_bullish() == current.is_bullish()
            &&& (reported == SuperTrendSignal::BullishFlip || reported
                == SuperTrendSignal::BearishFlip) <==> previous != current
            &&& following == current
            &&& close_to_band == Sign::Positive ==> reported.is_bullish()
        }),
{
}

/// While each close stays above the lower band, the lower band stays the
/// active one and the side stays bullish: after a bullish candle no bearish
/// reading and no further flip is reported. A close above the upper band
/// makes the lower band the active one.
pub proof fn lemma_bullish_while_above_lower_band(
    previous_band: Option<ActiveBand>,
    close_to_upper: Sign,
    close_to_lower: Sign,
)
    ensures
        previous_band != Some(ActiveBand::Upper) && close_to_lower == Sign::Positive ==> {
            let band = ActiveBand::next_spec(previous_band, close_to_upper, close_to_lower);
            let side = SuperTrendSignal::side_spec(close_to_lower);
            &&& band == ActiveBand::Lower
            &&& side == SuperTrendSignal::Bullish
            &&& SuperTrendSignal::transition_spec(Some(SuperTrendSignal::Bullish), side)
                == SuperTrendSignal::Bullish
        },
        previous_band == Some(ActiveBand::Upper) ==> (ActiveBand::next_spec(
            previous_band,
            close_to_upper,
            close_to_lower,
        ) == ActiveBand::Lower <==> close_to_upper == Sign::Positive),
{
}

} // verus!
