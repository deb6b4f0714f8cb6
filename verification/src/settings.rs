//! Settings that arrive as text: numbers with a default for what is missing or
//! malformed.

use vstd::prelude::*;

verus! {

/// Whether a character is a decimal digit.
pub open spec fn is_digit(c: char) -> bool {
    '0' <= c && c <= '9'
}

/// The number that a run of decimal digits stands for.
pub open spec fn digits_value(s: Seq<char>) -> nat
    decreases s.len(),
{
    if s.len() == 0 {
        0
    } else {
        digits_value(s.drop_last()) * 10 + (s.last() as nat - '0' as nat) as nat
    }
}

/// The number that a text stands for, where it is one of at most `max`: decimal digits,
/// at least one, after an optional plus sign, and nothing else.
pub open spec fn parse_unsigned(s: Seq<char>, max: nat) -> Option<nat> {
    let digits = if s.len() > 0 && s[0] == '+' {
        s.drop_first()
    } else {
        s
    };
    if digits.len() > 0 && (forall|i: int| 0 <= i < digits.len() ==> is_digit(#[trigger] digits[i]))
        && digits_value(digits) <= max {
        Some(digits_value(digits))
    } else {
        None
    }
}

/// `str::parse::<u32>` of std: the number that the text stands for, or nothing where
/// the text is empty, holds anything but digits after an optional plus sign, or stands
/// for a number that does not fit.
#[verifier::external_body]
fn parse_u32(text: &str) -> (r: Option<u32>)
    ensures
        match r {
            Some(n) => parse_unsigned(text@, u32::MAX as nat) == Some(n as nat),
            None => parse_unsigned(text@, u32::MAX as nat) is None,
        },
{
    text.parse::<u32>().ok()
}

/// `str::parse::<u16>` of std: the number that the text stands for, or nothing where
/// the text is empty, holds anything but digits after an optional plus sign, or stands
/// for a number that does not fit.
#[verifier::external_body]
fn parse_u16(text: &str) -> (r: Option<u16>)
    ensures
        match r {
            Some(n) => parse_unsigned(text@, u16::MAX as nat) == Some(n as nat),
            None => parse_unsigned(text@, u16::MAX as nat) is None,
        },
{
    text.parse::<u16>().ok()
}

/// The number that a setting gives, or `default` where the setting is missing or is no
/// number that fits in 32 bits.
pub fn u32_or(value: Option<&str>, default: u32) -> (r: u32)
    ensures
        r as nat == match value {
            Some(text) => match parse_unsigned(text@, u32::MAX as nat) {
                Some(n) => n,
                None => default as nat,
            },
            None => default as nat,
        },
{
    match value {
        Some(text) => match parse_u32(text) {
            Some(n) => n,
            None => default,
        },
        None => default,
    }
}

/// The number that a setting gives, or `default` where the setting is missing or is no
/// number that fits in 16 bits.
pub fn u16_or(value: Option<&str>, default: u16) -> (r: u16)
    ensures
        r as nat == match value {
            Some(text) => match parse_unsigned(text@, u16::MAX as nat) {
                Some(n) => n,
                None => default as nat,
            },
            None => default as nat,
        },
{
    match value {
        Some(text) => match parse_u16(text) {
            Some(n) => n,
            None => default,
        },
        None => default,
    }
}

/// The port of the REST interface where none is set.
pub const DEFAULT_API_PORT: u16 = 8482;

/// The directory of the store where none is set.
pub const DEFAULT_STORAGE_LOCATION: &'static str = ".hamh-storage";

/// The address of the upstream controller where none is set.
pub const DEFAULT_HOME_ASSISTANT_URL: &'static str = "http://localhost:8123/";

/// The setting that a variable of the environment gives, or `default` where it is not
/// set.
pub fn text_or(value: Option<String>, default: &str) -> (r: String)
    ensures
        r@ == match value {
            Some(text) => text@,
            None => default@,
        },
{
    match value {
        Some(text) => text,
        None => default.to_owned(),
    }
}

} // verus!
