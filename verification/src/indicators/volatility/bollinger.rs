//! Reading of the Bollinger bands.

use vstd::prelude::*;
use crate::common::sign::Sign;

verus! {

/// What the bands say at one candle.
#[derive(Debug, Clone, Copy, PartialEq, Eq, Structural)]
pub enum BollingerSignal {
    Squeeze,
    UpperBreakout,
    LowerBreakout,
    WalkingBands,
    MeanReversion,
    Neutral,
}

impl BollingerSignal {
    /// What the reading adds to the volatility score: only a breakout
    /// counts, by 1 in its direction.
    pub open spec fn delta(self) -> int {
        match self {
            BollingerSignal::UpperBreakout => 1,
            BollingerSignal::LowerBreakout => -1,
            _ => 0,
        }
    }

    /// The reasons the reading leaves in the trail.
    pub open spec fn reasons(self) -> Seq<Seq<char>> {
        match self {
            BollingerSignal::Squeeze => seq!["Bollinger Squeeze - breakout setup"@],
            BollingerSignal::UpperBreakout => seq!["Price broke above Bollinger upper"@],
            BollingerSignal::LowerBreakout => seq!["Price broke below Bollinger lower"@],
            BollingerSignal::MeanReversion => seq!["Bollinger mean reversion"@],
            BollingerSignal::WalkingBands => seq!["Walking the bands - strong trend"@],
            BollingerSignal::Neutral => Seq::empty(),
        }
    }
}

/// How the close stands against bands over a full window.
#[derive(Debug, Clone, Copy, PartialEq, Eq, Structural)]
pub struct BandPosition {
    /// The bandwidth is under the squeeze threshold.
    pub squeezed: bool,
    /// Close minus upper band.
    pub close_to_upper: Sign,
    /// Close minus lower band.
    pub close_to_lower: Sign,
    /// Bandwidth now minus bandwidth before; `None` without an earlier one.
    pub bandwidth_change: Option<Sign>,
    /// The close is within half a standard deviation of the middle band.
    pub near_middle: bool,
    /// The close is within a fifth of a standard deviation of a band, or
    /// beyond it.
    pub at_band: bool,
}

impl BollingerSignal {
    /// The reading of the bands, in order of precedence: a squeeze, a
    /// breakout above or below, then, given an earlier bandwidth, a mean
    /// reversion while the bands narrow with the close near the middle, and
    /// walking the bands while the close rides one. Before the window is full
    /// (`None`) the reading is neutral.
    pub open spec fn classify_spec(position: Option<BandPosition>) -> BollingerSignal {
        match position {
            None => BollingerSignal::Neutral,
            Some(p) => {
                if p.squeezed {
                    BollingerSignal::Squeeze
                } else if p.close_to_upper == Sign::Positive {
                    BollingerSignal::UpperBreakout
                } else if p.close_to_lower == Sign::Negative {
                    BollingerSignal::LowerBreakout
                } else if p.bandwidth_change is None {
                    BollingerSignal::Neutral
                } else if p.bandwidth_change == Some(Sign::Negative) && p.near_middle {
                    BollingerSignal::MeanReversion
                } else if p.at_band {
                    BollingerSignal::WalkingBands
                } else {
                    BollingerSignal::Neutral
                }
            },
        }
    }

    /// Classifies the close against the bands; `None` while the window is
    /// not full.
    pub fn classify(position: Option<BandPosition>) -> (signal: BollingerSignal)
        ensures
            signal == Self::classify_spec(position),
    {
        match position {
            None => BollingerSignal::Neutral,
            Some(p) => {
                if p.squeezed {
                    BollingerSignal::Squeeze
                } else if matches!(p.close_to_upper, Sign::Positive) {
                    BollingerSignal::UpperBreakout
                } else if matches!(p.close_to_lower, Sign::Negative) {
                    BollingerSignal::LowerBreakout
                } else {
                    match p.bandwidth_change {
                        None => BollingerSignal::Neutral,
                        Some(change) => {
                            if matches!(change, Sign::Negative) && p.near_middle {
                                BollingerSignal::MeanReversion
                            } else if p.at_band {
                                BollingerSignal::WalkingBands
                            } else {
                                BollingerSignal::Neutral
                            }
                        },
                    }
                }
            },
        }
    }
}

/// Only a breakout moves the volatility score, and a squeeze hides a
/// breakout: while the bands are squeezed the score stays where it is.
pub proof fn lemma_only_breakout_scores(position: Option<BandPosition>)
    ensures
        BollingerSignal::classify_spec(position).delta() != 0 <==> (position matches Some(p)
            && !p.squeezed && (p.close_to_upper == Sign::Positive || p.close_to_lower
            == Sign::Negative)),
{
}

} // verus!
