//! The sign of a measured difference. The trackers keep their running
//! values to themselves; what their classification reads of them is on
//! which side of each other two values lie.

use vstd::prelude::*;

verus! {

/// The sign of a difference `a - b`: whether `a` lies below, on or above
/// `b`.
#[derive(Debug, Clone, Copy, PartialEq, Eq, Structural)]
pub enum Sign {
    Negative,
    Zero,
    Positive,
}

impl Sign {
    /// The sign of a number.
    pub open spec fn of(difference: int) -> Sign {
        if difference < 0 {
            Sign::Negative
        } else if difference == 0 {
            Sign::Zero
        } else {
            Sign::Positive
        }
    }

    /// The sign of the negated difference.
    pub open spec fn flipped(self) -> Sign {
        match self {
            Sign::Negative => Sign::Positive,
            Sign::Zero => Sign::Zero,
            Sign::Positive => Sign::Negative,
        }
    }
}

/// Negating a difference flips its sign, and flipping twice changes
/// nothing.
pub proof fn lemma_flip_negates(difference: int, sign: Sign)
    ensures
        Sign::of(-difference) == Sign::of(difference).flipped(),
        sign.flipped().flipped() == sign,
{
}

} // verus!
