//! Direction by thresholds on a global score, and stop-loss / take-profit
//! sizing by multiples of the average true range.

use vstd::prelude::*;
use crate::models::signal::SignalDirection;

verus! {

/// The threshold policy: a global score between 0 and 1, held in
/// hundredths, against fixed cutoffs.
pub struct DirectionThresholds;

impl DirectionThresholds {
    /// Scores above this many hundredths are long.
    pub const LONG_THRESHOLD_PCT: u32 = 60;

    /// Scores below this many hundredths are short.
    pub const SHORT_THRESHOLD_PCT: u32 = 40;

    /// The direction of a global score in hundredths.
    pub open spec fn direction_of(global_score_pct: int) -> SignalDirection {
        if global_score_pct > 60 {
            SignalDirection::Long
        } else if global_score_pct < 40 {
            SignalDirection::Short
        } else {
            SignalDirection::Neutral
        }
    }

    /// Long above 0.60, short below 0.40, neutral between; the cutoffs
    /// themselves are neutral.
    pub fn determine_direction(global_score_pct: u32) -> (direction: SignalDirection)
        ensures
            direction == Self::direction_of(global_score_pct as int),
    {
        if global_score_pct > Self::LONG_THRESHOLD_PCT {
            SignalDirection::Long
        } else if global_score_pct < Self::SHORT_THRESHOLD_PCT {
            SignalDirection::Short
        } else {
            SignalDirection::Neutral
        }
    }

    /// Maps a normalized score in hundredths, from -100 to 100, onto 0 to
    /// 100: `(score + 100) / 2`, rounded down.
    pub fn to_percentage(normalized_score_pct: i32) -> (pct: u32)
        requires
            -100 <= normalized_score_pct <= 100,
        ensures
            pct == (normalized_score_pct + 100) / 2,
            pct <= 100,
    {
        ((normalized_score_pct + 100) / 2) as u32
    }
}

/// Sizing of stop-loss and take-profit from the average true range.
pub struct StopLossTakeProfit;

impl StopLossTakeProfit {
    /// The stop-loss distance in tenths of the average true range: 1.2.
    pub const STOP_LOSS_ATR_TENTHS: u32 = 12;

    /// The take-profit distance in tenths of the average true range: 2.0.
    pub const TAKE_PROFIT_ATR_TENTHS: u32 = 20;

    /// The multiples for a direction: (12, 20) for a long or short while
    /// the average true range is positive, else (0, 0).
    pub open spec fn multiples_of(direction: SignalDirection, atr_positive: bool) -> (nat, nat) {
        if direction != SignalDirection::Neutral && atr_positive {
            (12, 20)
        } else {
            (0, 0)
        }
    }

    /// The stop-loss and take-profit distances, in tenths of the average
    /// true range, for a direction. A neutral direction, or an average true
    /// range that is not positive, gives no sizing.
    pub fn atr_multiples(direction: SignalDirection, atr_positive: bool) -> (multiples: (u32, u32))
        ensures
            (multiples.0 as nat, multiples.1 as nat) == Self::multiples_of(direction, atr_positive),
    {
        match direction {
            SignalDirection::Long | SignalDirection::Short => {
                if atr_positive {
                    (Self::STOP_LOSS_ATR_TENTHS, Self::TAKE_PROFIT_ATR_TENTHS)
                } else {
                    (0, 0)
                }
            },
            SignalDirection::Neutral => (0, 0),
        }
    }
}

} // verus!
