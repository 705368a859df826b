//! Reading of the price against the volume profile.

use vstd::prelude::*;
use crate::common::sign::Sign;

verus! {

/// Where the price stands against the point of control and the high and
/// low volume nodes.
#[derive(Debug, Clone, Copy, PartialEq, Eq, Structural)]
pub enum VolumeProfileSignal {
    NearHVN,
    NearLVN,
    POCSupport,
    POCResistance,
    Neutral,
}

impl VolumeProfileSignal {
    /// What the reading adds to the volume score: support at the point of
    /// control counts 1 upward, resistance 1 downward.
    pub open spec fn delta(self) -> int {
        match self {
            VolumeProfileSignal::POCSupport => 1,
            VolumeProfileSignal::POCResistance => -1,
            _ => 0,
        }
    }

    /// The reasons the reading leaves in the trail.
    pub open spec fn reasons(self) -> Seq<Seq<char>> {
        match self {
            VolumeProfileSignal::POCSupport => seq!["Price at POC support"@],
            VolumeProfileSignal::POCResistance => seq!["Price at POC resistance"@],
            VolumeProfileSignal::NearLVN => seq!["Near LVN - expect fast move"@],
            _ => Seq::empty(),
        }
    }
}

/// The volume traded at the current price level against the mean over all
/// levels: above one and a half times the mean, below half of it, or
/// between.
#[derive(Debug, Clone, Copy, PartialEq, Eq, Structural)]
pub enum VolumeLevel {
    High,
    Low,
    Average,
}

impl VolumeProfileSignal {
    /// The reading of the profile. Within two ticks of the point of control
    /// the level is support when the price is above it and resistance
    /// otherwise; further away the reading goes by the volume at the current
    /// level.
    pub open spec fn classify_spec(near_poc: bool, price_to_poc: Sign, level: VolumeLevel)
        -> VolumeProfileSignal {
        if near_poc {
            if price_to_poc == Sign::Positive {
                VolumeProfileSignal::POCSupport
            } else {
                VolumeProfileSignal::POCResistance
            }
        } else {
            match level {
                VolumeLevel::High => VolumeProfileSignal::NearHVN,
                VolumeLevel::Low => VolumeProfileSignal::NearLVN,
                VolumeLevel::Average => VolumeProfileSignal::Neutral,
            }
        }
    }

    /// Classifies the price against the point of control and the volume at
    /// its own level.
    pub fn classify(near_poc: bool, price_to_poc: Sign, level: VolumeLevel) -> (signal:
        VolumeProfileSignal)
        ensures
            signal == Self::classify_spec(near_poc, price_to_poc, level),
    {
        if near_poc {
            match price_to_poc {
                Sign::Positive => VolumeProfileSignal::POCSupport,
                _ => VolumeProfileSignal::POCResistance,
            }
        } else {
            match level {
                VolumeLevel::High => VolumeProfileSignal::NearHVN,
                VolumeLevel::Low => VolumeProfileSignal::NearLVN,
                VolumeLevel::Average => VolumeProfileSignal::Neutral,
            }
        }
    }
}

} // verus!
