//! Identifiers as text: the hyphenated form of a 128-bit UUID value.

use vstd::arithmetic::power::pow;
use vstd::prelude::*;

verus! {

/// The character of a hexadecimal digit, in lower case.
pub open spec fn hex_digit(n: int) -> char {
    if n < 10 {
        ('0' as int + n) as char
    } else {
        ('a' as int + n - 10) as char
    }
}

/// How many hexadecimal digits stand before the place `i` of the hyphenated form.
pub open spec fn digits_before(i: int) -> int {
    if i < 8 {
        i
    } else if i < 13 {
        i - 1
    } else if i < 18 {
        i - 2
    } else if i < 23 {
        i - 3
    } else {
        i - 4
    }
}

/// The hyphenated form of an identifier: its 32 hexadecimal digits in lower case, the
/// highest first, in groups of 8, 4, 4, 4 and 12 with a hyphen between them.
pub open spec fn uuid_text(id: u128) -> Seq<char> {
    Seq::new(
        36,
        |i: int|
            if i == 8 || i == 13 || i == 18 || i == 23 {
                '-'
            } else {
                hex_digit((id as int / pow(16, (31 - digits_before(i)) as nat)) % 16)
            },
    )
}

/// The identifier that a text is read as, in any of the forms that the `uuid` crate
/// accepts; `None` for a text that is no identifier.
pub uninterp spec fn uuid_parse(text: Seq<char>) -> Option<u128>;

/// `Display` of `uuid::Uuid`, for the identifier with the given value: the hyphenated
/// lower-case form, which `uuid::Uuid::parse_str` reads back as the same identifier.
#[verifier::external_body]
pub(crate) fn format_uuid(id: u128) -> (r: String)
    ensures
        r@ == uuid_text(id),
        uuid_parse(r@) == Some(id),
{
    uuid::Uuid::from_u128(id).to_string()
}

/// `uuid::Uuid::parse_str`: the value of the identifier that the text holds, or nothing
/// where the crate refuses the text.
#[verifier::external_body]
pub(crate) fn parse_uuid(text: &str) -> (r: Option<u128>)
    ensures
        r == uuid_parse(text@),
{
    match uuid::Uuid::parse_str(text) {
        Ok(id) => Some(id.as_u128()),
        Err(_) => None,
    }
}

/// The hyphenated form has 36 characters, all of them ASCII.
pub proof fn lemma_uuid_text_ascii(id: u128)
    ensures
        uuid_text(id).len() == 36,
        vstd::utf8::is_ascii_chars(uuid_text(id)),
{
    assert forall|i: int| 0 <= i < uuid_text(id).len() implies '\0' <= #[trigger] uuid_text(id)[i]
        <= '\u{7f}' by {
        let n = (id as int / pow(16, (31 - digits_before(i)) as nat)) % 16;
        assert(0 <= n < 16);
    }
}

} // verus!
