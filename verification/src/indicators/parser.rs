//! Reading unsigned numbers from text.

use vstd::prelude::*;
use vstd::string::StringSliceAdditionalSpecFns;
use crate::indicators::error::{decimal, IndicatorError};

verus! {

/// An ASCII decimal digit.
pub open spec fn is_digit(byte: u8) -> bool {
    0x30 <= byte <= 0x39
}

/// The number that a run of decimal digits writes, most significant first.
pub open spec fn digits_value(digits: Seq<u8>) -> nat
    decreases digits.len(),
{
    if digits.len() == 0 {
        0
    } else {
        digits_value(digits.drop_last()) * 10 + (digits.last() - 0x30) as nat
    }
}

/// The text without one leading plus sign, if it has one.
pub open spec fn unsigned_digits(bytes: Seq<u8>) -> Seq<u8> {
    if bytes.len() > 0 && bytes[0] == 0x2b {
        bytes.skip(1)
    } else {
        bytes
    }
}

/// The number a text writes: an optional plus sign, then one or more
/// decimal digits whose value fits in 32 bits. Any other text writes none.
pub open spec fn parse_u32_spec(bytes: Seq<u8>) -> Option<u32> {
    let digits = unsigned_digits(bytes);
    if digits.len() > 0 && (forall|i: int| 0 <= i < digits.len() ==> is_digit(#[trigger] digits[i]))
        && digits_value(digits) <= u32::MAX {
        Some(digits_value(digits) as u32)
    } else {
        None
    }
}

/// A run of digits is worth at least as much as each of its prefixes.
proof fn lemma_prefix_value_le(digits: Seq<u8>, n: int)
    requires
        0 <= n <= digits.len(),
        forall|i: int| 0 <= i < digits.len() ==> is_digit(#[trigger] digits[i]),
    ensures
        digits_value(digits.take(n)) <= digits_value(digits),
    decreases digits.len() - n,
{
    if n == digits.len() {
        assert(digits.take(n) =~= digits);
    } else {
        let longer = digits.take(n + 1);
        assert(longer.drop_last() =~= digits.take(n));
        assert(is_digit(digits[n]));
        assert(longer.last() == digits[n]);
        assert(digits_value(longer) == digits_value(digits.take(n)) * 10 + (digits[n] - 0x30));
        lemma_prefix_value_le(digits, n + 1);
    }
}

/// Reads an unsigned 32-bit number. The text is rejected, and returned in
/// an `InvalidNumericFormat` error, unless it is an optional plus sign
/// followed by decimal digits whose value fits.
pub fn parse_u32(value: &str) -> (result: Result<u32, IndicatorError>)
    ensures
        match parse_u32_spec(value.spec_bytes()) {
            Some(number) => result == Ok::<u32, IndicatorError>(number),
            None => result matches Err(IndicatorError::InvalidNumericFormat(text)) && text@
                == value@,
        },
{
    let bytes = value.as_bytes();
    let start: usize = if bytes.len() > 0 && bytes[0] == 0x2b {
        1
    } else {
        0
    };
    let ghost digits = unsigned_digits(bytes@);
    assert(digits =~= bytes@.skip(start as int));
    if start == bytes.len() {
        return Err(IndicatorError::InvalidNumericFormat(String::from_str(value)));
    }
    let mut number: u64 = 0;
    let mut i: usize = start;
    while i < bytes.len()
        invariant
            start <= i <= bytes.len(),
            start <= 1,
            bytes@ == value.spec_bytes(),
            digits == bytes@.skip(start as int),
            digits == unsigned_digits(bytes@),
            forall|j: int| 0 <= j < i - start ==> is_digit(#[trigger] digits[j]),
            number == digits_value(digits.take(i - start)),
            number <= u32::MAX,
        decreases bytes.len() - i,
    {
        let byte = bytes[i];
        assert(digits[i - start] == byte);
        if byte < 0x30 || byte > 0x39 {
            return Err(IndicatorError::InvalidNumericFormat(String::from_str(value)));
        }
        let ghost longer = digits.take(i - start + 1);
        assert(longer.drop_last() =~= digits.take(i - start));
        assert(longer.last() == byte);
        let next: u64 = number * 10 + (byte - 0x30) as u64;
        if next > 0xffff_ffff {
            proof {
                if forall|j: int| 0 <= j < digits.len() ==> is_digit(#[trigger] digits[j]) {
                    lemma_prefix_value_le(digits, i - start + 1);
                }
            }
            return Err(IndicatorError::InvalidNumericFormat(String::from_str(value)));
        }
        number = next;
        i = i + 1;
    }
    assert(digits.take(i - start) =~= digits);
    Ok(number as u32)
}

/// Reads an unsigned 32-bit number from the text that a value displays
/// as. The text is whatever the value's `Display` writes; it is read as
/// `parse_u32` reads it.
pub fn parse_u32_from_any<T: std::fmt::Display + ?Sized>(value: &T) -> (result: Result<
    u32,
    IndicatorError,
>)
    ensures
        exists|text: String|
            {
                &&& #[trigger] vstd::string::to_string_from_display_ensures::<T>(value, text)
                &&& match parse_u32_spec(vstd::utf8::encode_utf8(text@)) {
                    Some(number) => result == Ok::<u32, IndicatorError>(number),
                    None => result matches Err(IndicatorError::InvalidNumericFormat(rejected))
                        && rejected@ == text@,
                }
            },
{
    let text = value.to_string();
    let slice = text.as_str();
    let result = parse_u32(slice);
    assert(slice.spec_bytes() == vstd::utf8::encode_utf8(text@));
    assert(vstd::string::to_string_from_display_ensures::<T>(value, text));
    result
}

/// The periods that three optional texts give: none unless all three are
/// there; else the three numbers, or no result where one of them is no
/// number.
pub open spec fn macd_periods_spec(
    fast: Option<Seq<u8>>,
    slow: Option<Seq<u8>>,
    signal: Option<Seq<u8>>,
) -> Option<Option<(u32, u32, u32)>> {
    if fast is Some && slow is Some && signal is Some {
        match (
            parse_u32_spec(fast->0),
            parse_u32_spec(slow->0),
            parse_u32_spec(signal->0),
        ) {
            (Some(f), Some(l), Some(s)) => Some(Some((f, l, s))),
            _ => None,
        }
    } else {
        Some(None)
    }
}

/// The bytes of an optional text.
pub open spec fn optional_bytes(text: Option<&str>) -> Option<Seq<u8>> {
    match text {
        Some(t) => Some(t.spec_bytes()),
        None => None,
    }
}

/// Reads the fast, slow and signal period of a MACD. The periods count only
/// where all three are given; they are then read in that order, and the
/// first text that is no number is returned in an `InvalidNumericFormat`
/// error.
pub fn parse_macd_periods(fast: Option<&str>, slow: Option<&str>, signal: Option<&str>) -> (result:
    Result<Option<(u32, u32, u32)>, IndicatorError>)
    ensures
        match macd_periods_spec(
            optional_bytes(fast),
            optional_bytes(slow),
            optional_bytes(signal),
        ) {
            Some(periods) => result == Ok::<Option<(u32, u32, u32)>, IndicatorError>(periods),
            None => result matches Err(IndicatorError::InvalidNumericFormat(text)) && {
                if parse_u32_spec(fast->0.spec_bytes()) is None {
                    text@ == fast->0@
                } else if parse_u32_spec(slow->0.spec_bytes()) is None {
                    text@ == slow->0@
                } else {
                    text@ == signal->0@
                }
            },
        },
{
    match (fast, slow, signal) {
        (Some(fast_text), Some(slow_text), Some(signal_text)) => {
            let fast_period = match parse_u32(fast_text) {
                Ok(period) => period,
                Err(error) => {
                    return Err(error);
                },
            };
            let slow_period = match parse_u32(slow_text) {
                Ok(period) => period,
                Err(error) => {
                    return Err(error);
                },
            };
            let signal_period = match parse_u32(signal_text) {
                Ok(period) => period,
                Err(error) => {
                    return Err(error);
                },
            };
            Ok(Some((fast_period, slow_period, signal_period)))
        },
        _ => Ok(None),
    }
}

/// The bytes of a run of ASCII characters.
pub open spec fn ascii_bytes(chars: Seq<char>) -> Seq<u8> {
    Seq::new(chars.len(), |i: int| chars[i] as u8)
}

/// A number written in decimal is a run of digits, at least one, that is
/// worth the number.
proof fn lemma_decimal_is_digits(number: nat)
    ensures
        decimal(number).len() >= 1,
        forall|i: int|
            0 <= i < decimal(number).len() ==> is_digit(#[trigger] ascii_bytes(decimal(number))[i]),
        vstd::utf8::is_ascii_chars(decimal(number)),
        digits_value(ascii_bytes(decimal(number))) == number,
    decreases number,
{
    let written = decimal(number);
    let bytes = ascii_bytes(written);
    if number < 10 {
        assert(bytes.drop_last() =~= Seq::<u8>::empty());
        assert(digits_value(bytes.drop_last()) == 0);
        assert(bytes.last() == 0x30 + number);
    } else {
        let shorter = decimal(number / 10);
        lemma_decimal_is_digits(number / 10);
        assert(written.drop_last() =~= shorter);
        assert(bytes.drop_last() =~= ascii_bytes(shorter));
        assert(bytes.last() == 0x30 + number % 10);
        assert forall|i: int| 0 <= i < written.len() implies is_digit(#[trigger] bytes[i]) by {
            if i < shorter.len() {
                assert(bytes[i] == ascii_bytes(shorter)[i]);
            }
        }
        assert forall|i: int| 0 <= i < written.len() implies '\0' <= #[trigger] written[i]
            <= '\u{7f}' by {
            if i < shorter.len() {
                assert(written[i] == shorter[i]);
            }
        }
    }
}

/// What is written in decimal is read back as the same number.
pub proof fn lemma_decimal_reads_back(number: u32)
    ensures
        parse_u32_spec(vstd::utf8::encode_utf8(decimal(number as nat))) == Some(number),
{
    let written = decimal(number as nat);
    lemma_decimal_is_digits(number as nat);
    vstd::utf8::is_ascii_chars_encode_utf8(written);
    let bytes = vstd::utf8::encode_utf8(written);
    assert(bytes =~= ascii_bytes(written));
    assert(is_digit(bytes[0]));
    assert(unsigned_digits(bytes) == bytes);
}

} // verus!
