//! The text form of register values in reports: `0x` and the value in
//! hexadecimal.

use vstd::prelude::*;
use vstd::string::{StrSliceExecFns, StringExecFns};

verus! {

/// Why a text is no register value.
#[derive(Copy, Clone, Debug, PartialEq, Eq, Structural)]
pub enum ParseHexError {
    /// The text does not begin with `0x`.
    MissingPrefix,
    /// Nothing follows `0x`.
    Empty,
    /// A character after `0x` is no hexadecimal digit, or a sign stands
    /// alone.
    InvalidDigit,
    /// The number is larger than a 64-bit register holds.
    PosOverflow,
}

impl ParseHexError {
    /// The error as a sentence.
    pub fn message(&self) -> (text: &'static str)
        ensures
            text@ == (match self {
                ParseHexError::MissingPrefix => "hexadecimal field must start with 0x"@,
                ParseHexError::Empty => "cannot parse integer from empty string"@,
                ParseHexError::InvalidDigit => "invalid digit found in string"@,
                ParseHexError::PosOverflow => "number too large to fit in target type"@,
            }),
    {
        match self {
            ParseHexError::MissingPrefix => "hexadecimal field must start with 0x",
            ParseHexError::Empty => "cannot parse integer from empty string",
            ParseHexError::InvalidDigit => "invalid digit found in string",
            ParseHexError::PosOverflow => "number too large to fit in target type",
        }
    }
}

/// The upper-case hexadecimal digit that stands for `digit`.
pub open spec fn hex_digit(digit: nat) -> char
    recommends
        digit < 16,
{
    if digit == 0 {
        '0'
    } else if digit == 1 {
        '1'
    } else if digit == 2 {
        '2'
    } else if digit == 3 {
        '3'
    } else if digit == 4 {
        '4'
    } else if digit == 5 {
        '5'
    } else if digit == 6 {
        '6'
    } else if digit == 7 {
        '7'
    } else if digit == 8 {
        '8'
    } else if digit == 9 {
        '9'
    } else if digit == 10 {
        'A'
    } else if digit == 11 {
        'B'
    } else if digit == 12 {
        'C'
    } else if digit == 13 {
        'D'
    } else if digit == 14 {
        'E'
    } else {
        'F'
    }
}

/// `value` in hexadecimal, most significant digit first, without leading
/// zeros; zero is the single digit `0`.
pub open spec fn hex_digits(value: nat) -> Seq<char>
    decreases value,
{
    if value < 16 {
        seq![hex_digit(value)]
    } else {
        hex_digits(value / 16).push(hex_digit(value % 16))
    }
}

/// The text that stands for `value` in a report.
pub open spec fn hex_text(value: u64) -> Seq<char> {
    seq!['0', 'x'] + hex_digits(value as nat)
}

/// The number that a hexadecimal digit of either case stands for.
pub open spec fn digit_value(c: char) -> Option<nat> {
    if '0' <= c <= '9' {
        Some((c as nat - '0' as nat) as nat)
    } else if 'A' <= c <= 'F' {
        Some((c as nat - 'A' as nat + 10) as nat)
    } else if 'a' <= c <= 'f' {
        Some((c as nat - 'a' as nat + 10) as nat)
    } else {
        None
    }
}

/// The number that `digits` stand for, read from the left. The first
/// character that is no digit, or with which the number outgrows 64 bits,
/// decides the error.
pub open spec fn parse_digits(digits: Seq<char>) -> Result<nat, ParseHexError>
    decreases digits.len(),
{
    if digits.len() == 0 {
        Ok(0)
    } else {
        match parse_digits(digits.drop_last()) {
            Ok(value) => match digit_value(digits.last()) {
                Some(digit) => if value * 16 + digit > u64::MAX {
                    Err(ParseHexError::PosOverflow)
                } else {
                    Ok(value * 16 + digit)
                },
                None => Err(ParseHexError::InvalidDigit),
            },
            Err(error) => Err(error),
        }
    }
}

/// The register value that `text` stands for: `0x`, then an optional `+`,
/// then at least one hexadecimal digit of either case.
pub open spec fn parse_hex(text: Seq<char>) -> Result<u64, ParseHexError> {
    if !(text.len() >= 2 && text[0] == '0' && text[1] == 'x') {
        Err(ParseHexError::MissingPrefix)
    } else if text.len() == 2 {
        Err(ParseHexError::Empty)
    } else {
        let digits = if text[2] == '+' {
            text.skip(3)
        } else {
            text.skip(2)
        };
        if digits.len() == 0 {
            Err(ParseHexError::InvalidDigit)
        } else {
            match parse_digits(digits) {
                Ok(value) => Ok(value as u64),
                Err(error) => Err(error),
            }
        }
    }
}

/// The digits of a number are read back as that number.
pub proof fn lemma_parse_digits_of_hex_digits(value: nat)
    requires
        value <= u64::MAX,
    ensures
        parse_digits(hex_digits(value)) == Ok::<nat, ParseHexError>(value),
        hex_digits(value).len() > 0,
        hex_digits(value)[0] != '+',
    decreases value,
{
    let digits = hex_digits(value);
    if value < 16 {
        assert(parse_digits(digits.drop_last()) == Ok::<nat, ParseHexError>(0));
    } else {
        lemma_parse_digits_of_hex_digits(value / 16);
        assert(digits.drop_last() =~= hex_digits(value / 16));
    }
}

/// What `to_hex` writes, `from_hex` reads back.
pub proof fn lemma_hex_round_trip(value: u64)
    ensures
        parse_hex(hex_text(value)) == Ok::<u64, ParseHexError>(value),
{
    lemma_parse_digits_of_hex_digits(value as nat);
    assert(hex_text(value).skip(2) =~= hex_digits(value as nat));
}

/// The upper-case hexadecimal digit that stands for `digit`, as a text.
fn hex_digit_str(digit: u64) -> (text: &'static str)
    requires
        digit < 16,
    ensures
        text@ == seq![hex_digit(digit as nat)],
{
    proof {
        reveal_strlit("0");
        reveal_strlit("1");
        reveal_strlit("2");
        reveal_strlit("3");
        reveal_strlit("4");
        reveal_strlit("5");
        reveal_strlit("6");
        reveal_strlit("7");
        reveal_strlit("8");
        reveal_strlit("9");
        reveal_strlit("A");
        reveal_strlit("B");
        reveal_strlit("C");
        reveal_strlit("D");
        reveal_strlit("E");
        reveal_strlit("F");
    }
    let text = if digit == 0 {
        "0"
    } else if digit == 1 {
        "1"
    } else if digit == 2 {
        "2"
    } else if digit == 3 {
        "3"
    } else if digit == 4 {
        "4"
    } else if digit == 5 {
        "5"
    } else if digit == 6 {
        "6"
    } else if digit == 7 {
        "7"
    } else if digit == 8 {
        "8"
    } else if digit == 9 {
        "9"
    } else if digit == 10 {
        "A"
    } else if digit == 11 {
        "B"
    } else if digit == 12 {
        "C"
    } else if digit == 13 {
        "D"
    } else if digit == 14 {
        "E"
    } else {
        "F"
    };
    text
}

/// Appends the hexadecimal digits of `value` to `text`.
fn append_hex_digits(value: u64, text: &mut String)
    ensures
        final(text)@ == old(text)@ + hex_digits(value as nat),
    decreases value,
{
    if value >= 16 {
        append_hex_digits(value / 16, text);
    }
    text.append(hex_digit_str(value % 16));
}

/// Writes a register value as it stands in a report.
pub fn to_hex(value: u64) -> (text: String)
    ensures
        text@ == hex_text(value),
{
    let mut text = String::from_str("0x");
    proof {
        reveal_strlit("0x");
    }
    append_hex_digits(value, &mut text);
    text
}

/// The number that a hexadecimal digit of either case stands for.
fn hex_digit_value(c: char) -> (value: Option<u64>)
    ensures
        match value {
            Some(digit) => digit_value(c) == Some(digit as nat),
            None => digit_value(c) is None,
        },
{
    let code = c as u32;
    if code >= 0x30 && code <= 0x39 {
        Some((code - 0x30) as u64)
    } else if code >= 0x41 && code <= 0x46 {
        Some((code - 0x41 + 10) as u64)
    } else if code >= 0x61 && code <= 0x66 {
        Some((code - 0x61 + 10) as u64)
    } else {
        None
    }
}

/// Reads a register value as it stands in a report.
pub fn from_hex(text: &str) -> (value: Result<u64, ParseHexError>)
    ensures
        value == parse_hex(text@),
{
    let len = text.unicode_len();
    if len < 2 || text.get_char(0) != '0' || text.get_char(1) != 'x' {
        return Err(ParseHexError::MissingPrefix);
    }
    if len == 2 {
        return Err(ParseHexError::Empty);
    }
    let start: usize = if text.get_char(2) == '+' {
        3
    } else {
        2
    };
    if start == len {
        return Err(ParseHexError::InvalidDigit);
    }
    let ghost digits = text@.skip(start as int);
    let mut value: u64 = 0;
    let mut i: usize = start;
    while i < len
        invariant
            start <= i <= len,
            len == text@.len(),
            len > 2,
            text@[0] == '0',
            text@[1] == 'x',
            start == (if text@[2] == '+' {
                3int
            } else {
                2int
            }),
            start < len,
            digits == text@.skip(start as int),
            parse_digits(digits.take(i - start)) == Ok::<nat, ParseHexError>(value as nat),
        decreases len - i,
    {
        let c = text.get_char(i);
        assert(digits.take(i - start + 1).drop_last() =~= digits.take(i - start));
        let digit = match hex_digit_value(c) {
            Some(digit) => digit,
            None => {
                proof {
                    lemma_parse_digits_error_stays(digits, i - start + 1);
                }
                return Err(ParseHexError::InvalidDigit);
            },
        };
        let shifted = match value.checked_mul(16) {
            Some(shifted) => shifted,
            None => {
                proof {
                    lemma_parse_digits_error_stays(digits, i - start + 1);
                }
                return Err(ParseHexError::PosOverflow);
            },
        };
        value = match shifted.checked_add(digit) {
            Some(sum) => sum,
            None => {
                proof {
                    lemma_parse_digits_error_stays(digits, i - start + 1);
                }
                return Err(ParseHexError::PosOverflow);
            },
        };
        i = i + 1;
    }
    assert(digits.take(len - start) =~= digits);
    Ok(value)
}

/// Once reading has failed, more characters do not mend it: the error of a
/// prefix is the error of the whole.
proof fn lemma_parse_digits_error_stays(digits: Seq<char>, count: int)
    requires
        0 <= count <= digits.len(),
        parse_digits(digits.take(count)) is Err,
    ensures
        parse_digits(digits) == parse_digits(digits.take(count)),
    decreases digits.len() - count,
{
    if count < digits.len() {
        assert(digits.take(count + 1).drop_last() =~= digits.take(count));
        lemma_parse_digits_error_stays(digits, count + 1);
    } else {
        assert(digits.take(count) =~= digits);
    }
}

} // verus!
