//! Range checks on indicator parameters.

use vstd::prelude::*;
use crate::indicators::error::{decimal, decimal_text, IndicatorError};

verus! {

/// The shortest period an indicator may have.
pub const MIN_PERIOD: u32 = 1;

/// The longest period an indicator may have.
pub const MAX_PERIOD: u32 = 1000;

/// A period is valid from `MIN_PERIOD` to `MAX_PERIOD`, both included.
pub open spec fn period_valid(period: u32) -> bool {
    MIN_PERIOD <= period <= MAX_PERIOD
}

/// Accepts a period from 1 to 1000; any other is returned in an
/// `InvalidPeriod` error under the field name `period`.
pub fn validate_period(period: u32) -> (result: Result<(), IndicatorError>)
    ensures
        result is Ok <==> period_valid(period),
        result matches Err(error) ==> error matches IndicatorError::InvalidPeriod { field, value }
            && field@ == "period"@ && value == period,
{
    if period < MIN_PERIOD || period > MAX_PERIOD {
        return Err(
            IndicatorError::InvalidPeriod { field: String::from_str("period"), value: period },
        );
    }
    Ok(())
}

/// The three periods of a MACD are acceptable: each is a valid period and
/// the fast one is shorter than the slow one.
pub open spec fn macd_periods_valid(fast: u32, slow: u32, signal: u32) -> bool {
    period_valid(fast) && period_valid(slow) && period_valid(signal) && fast < slow
}

/// What is said of a fast period that is not shorter than the slow one.
pub open spec fn period_order_message(fast: u32, slow: u32) -> Seq<char> {
    "MACD fast period ("@ + decimal(fast as nat) + ") must be less than slow period ("@ + decimal(
        slow as nat,
    ) + ")"@
}

/// Checks the three periods of a MACD in the order fast, slow, signal, and
/// then that the fast period is shorter than the slow one. The first
/// invalid period is returned in an `InvalidPeriod` error; periods in the
/// wrong order give a `ValidationError`.
pub fn validate_macd_periods(fast: u32, slow: u32, signal: u32) -> (result: Result<
    (),
    IndicatorError,
>)
    ensures
        result is Ok <==> macd_periods_valid(fast, slow, signal),
        result matches Err(error) ==> {
            if !period_valid(fast) {
                error matches IndicatorError::InvalidPeriod { value, .. } && value == fast
            } else if !period_valid(slow) {
                error matches IndicatorError::InvalidPeriod { value, .. } && value == slow
            } else if !period_valid(signal) {
                error matches IndicatorError::InvalidPeriod { value, .. } && value == signal
            } else {
                error matches IndicatorError::ValidationError(message) && message@
                    == period_order_message(fast, slow)
            }
        },
{
    match validate_period(fast) {
        Err(error) => {
            return Err(error);
        },
        Ok(()) => {},
    }
    match validate_period(slow) {
        Err(error) => {
            return Err(error);
        },
        Ok(()) => {},
    }
    match validate_period(signal) {
        Err(error) => {
            return Err(error);
        },
        Ok(()) => {},
    }
    if fast >= slow {
        let message = String::from_str("MACD fast period (").concat(
            decimal_text(fast).as_str(),
        ).concat(") must be less than slow period (").concat(decimal_text(slow).as_str()).concat(
            ")",
        );
        return Err(IndicatorError::ValidationError(message));
    }
    Ok(())
}

} // verus!
