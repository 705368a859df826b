//! Reading of on-balance volume against price.

use vstd::prelude::*;
use crate::common::sign::Sign;

verus! {

/// What smoothed on-balance volume says at one candle.
#[derive(Debug, Clone, Copy, PartialEq, Eq, Structural)]
pub enum OBVSignal {
    BullishDivergence,
    BearishDivergence,
    Confirmation,
    Neutral,
}

impl OBVSignal {
    /// What the reading adds to the volume score: a divergence counts 2 in
    /// its direction, a confirmation 1 upward whichever way price moves.
    pub open spec fn delta(self) -> int {
        match self {
            OBVSignal::BullishDivergence => 2,
            OBVSignal::BearishDivergence => -2,
            OBVSignal::Confirmation => 1,
            OBVSignal::Neutral => 0,
        }
    }

    /// The reasons the reading leaves in the trail.
    pub open spec fn reasons(self) -> Seq<Seq<char>> {
        match self {
            OBVSignal::BullishDivergence => seq!["OBV bullish divergence"@],
            OBVSignal::BearishDivergence => seq!["OBV bearish divergence"@],
            OBVSignal::Confirmation => seq!["Volume confirms price action"@],
            OBVSignal::Neutral => Seq::empty(),
        }
    }
}

impl OBVSignal {
    /// The reading of smoothed on-balance volume against price: a
    /// divergence when they move opposite ways (bullish when it is the volume
    /// that rises), a confirmation when they move the same way, neutral when
    /// either stands still. `price_change` is `None` on the first candle.
    pub open spec fn classify_spec(price_change: Option<Sign>, obv_change: Sign) -> OBVSignal {
        match price_change {
            None => OBVSignal::Neutral,
            Some(price) => {
                if price == Sign::Negative && obv_change == Sign::Positive {
                    OBVSignal::BullishDivergence
                } else if price == Sign::Positive && obv_change == Sign::Negative {
                    OBVSignal::BearishDivergence
                } else if price != Sign::Zero && price == obv_change {
                    OBVSignal::Confirmation
                } else {
                    OBVSignal::Neutral
                }
            },
        }
    }

    /// Classifies the move of smoothed on-balance volume against the move
    /// of the price.
    pub fn classify(price_change: Option<Sign>, obv_change: Sign) -> (signal: OBVSignal)
        ensures
            signal == Self::classify_spec(price_change, obv_change),
    {
        match (price_change, obv_change) {
            (Some(Sign::Negative), Sign::Positive) => OBVSignal::BullishDivergence,
            (Some(Sign::Positive), Sign::Negative) => OBVSignal::BearishDivergence,
            (Some(Sign::Positive), Sign::Positive) => OBVSignal::Confirmation,
            (Some(Sign::Negative), Sign::Negative) => OBVSignal::Confirmation,
            _ => OBVSignal::Neutral,
        }
    }

    /// How a candle moves the running on-balance volume: up by its volume
    /// when the close rose, down by it when the close fell, not at all when
    /// it stood still.
    pub open spec fn volume_direction_spec(close_change: Sign) -> int {
        match close_change {
            Sign::Positive => 1,
            Sign::Negative => -1,
            Sign::Zero => 0,
        }
    }

    /// The factor, 1, -1 or 0, by which a candle's volume enters the
    /// running on-balance volume.
    pub fn volume_direction(close_change: Sign) -> (direction: i8)
        ensures
            direction == Self::volume_direction_spec(close_change),
    {
        match close_change {
            Sign::Positive => 1,
            Sign::Negative => -1,
            Sign::Zero => 0,
        }
    }
}

/// Mirroring a market mirrors its divergences and keeps its confirmations:
/// with both moves flipped, a bullish divergence becomes a bearish one and
/// the other readings stay.
pub proof fn lemma_mirror_swaps_divergence(price_change: Sign, obv_change: Sign)
    ensures
        ({
            let reading = OBVSignal::classify_spec(Some(price_change), obv_change);
            let mirrored = OBVSignal::classify_spec(
                Some(price_change.flipped()),
                obv_change.flipped(),
            );
            &&& reading == OBVSignal::BullishDivergence <==> mirrored
                == OBVSignal::BearishDivergence
            &&& reading == OBVSignal::BearishDivergence <==> mirrored
                == OBVSignal::BullishDivergence
            &&& reading == OBVSignal::Confirmation <==> mirrored == OBVSignal::Confirmation
            &&& reading == OBVSignal::Neutral <==> mirrored == OBVSignal::Neutral
        }),
{
}

} // verus!
