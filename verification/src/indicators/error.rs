//! What can be wrong with indicator input, and how it is put in words.

use vstd::prelude::*;

verus! {

/// An error in indicator input. The payload names the field or holds the
/// rejected text.
#[derive(Debug, Clone)]
pub enum IndicatorError {
    ParseError(String),
    ValidationError(String),
    MissingField(String),
    InvalidNumericFormat(String),
    InvalidPeriod { field: String, value: u32 },
}

/// The character of a decimal digit.
pub open spec fn digit_char(digit: nat) -> char {
    if digit == 0 {
        '0'
    } else if digit == 1 {
        '1'
    } else if digit == 2 {
        '2'
    } else if digit == 3 {
        '3'
    } else if digit == 4 {
        '4'
    } else if digit == 5 {
        '5'
    } else if digit == 6 {
        '6'
    } else if digit == 7 {
        '7'
    } else if digit == 8 {
        '8'
    } else {
        '9'
    }
}

/// A number written in decimal, without leading zeros.
pub open spec fn decimal(number: nat) -> Seq<char>
    decreases number,
{
    if number < 10 {
        seq![digit_char(number)]
    } else {
        decimal(number / 10).push(digit_char(number % 10))
    }
}

fn digit_text(digit: u32) -> (text: &'static str)
    requires
        digit < 10,
    ensures
        text@ == seq![digit_char(digit as nat)],
{
    proof {
        reveal_strlit("0");
        reveal_strlit("1");
        reveal_strlit("2");
        reveal_strlit("3");
        reveal_strlit("4");
        reveal_strlit("5");
        reveal_strlit("6");
        reveal_strlit("7");
        reveal_strlit("8");
        reveal_strlit("9");
    }
    let text = if digit == 0 {
        "0"
    } else if digit == 1 {
        "1"
    } else if digit == 2 {
        "2"
    } else if digit == 3 {
        "3"
    } else if digit == 4 {
        "4"
    } else if digit == 5 {
        "5"
    } else if digit == 6 {
        "6"
    } else if digit == 7 {
        "7"
    } else if digit == 8 {
        "8"
    } else {
        "9"
    };
    assert(text@ =~= seq![digit_char(digit as nat)]);
    text
}

/// Writes a number in decimal.
pub fn decimal_text(number: u32) -> (text: String)
    ensures
        text@ == decimal(number as nat),
    decreases number,
{
    if number < 10 {
        String::from_str(digit_text(number))
    } else {
        let mut text = decimal_text(number / 10);
        text.append(digit_text(number % 10));
        assert(text@ =~= decimal(number as nat));
        text
    }
}

impl IndicatorError {
    /// The error in words: what kind it is, then what it is about.
    pub open spec fn description(self) -> Seq<char> {
        match self {
            IndicatorError::ParseError(message) => "Parse error: "@ + message@,
            IndicatorError::ValidationError(message) => "Validation error: "@ + message@,
            IndicatorError::MissingField(field) => "Missing required field: "@ + field@,
            IndicatorError::InvalidNumericFormat(value) => "Invalid numeric format: "@ + value@,
            IndicatorError::InvalidPeriod { field, value } => "Field '"@ + field@
                + "' has invalid period: "@ + decimal(value as nat),
        }
    }

    /// The error in words.
    pub fn message(&self) -> (text: String)
        ensures
            text@ == self.description(),
    {
        match self {
            IndicatorError::ParseError(message) => String::from_str("Parse error: ").concat(
                message.as_str(),
            ),
            IndicatorError::ValidationError(message) => String::from_str(
                "Validation error: ",
            ).concat(message.as_str()),
            IndicatorError::MissingField(field) => String::from_str(
                "Missing required field: ",
            ).concat(field.as_str()),
            IndicatorError::InvalidNumericFormat(value) => String::from_str(
                "Invalid numeric format: ",
            ).concat(value.as_str()),
            IndicatorError::InvalidPeriod { field, value } => {
                let number = decimal_text(*value);
                String::from_str("Field '").concat(field.as_str()).concat(
                    "' has invalid period: ",
                ).concat(number.as_str())
            },
        }
    }
}

} // verus!
