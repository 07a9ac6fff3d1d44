//! The 128-bit identifier of a user record and its textual forms.

use vstd::prelude::*;

verus! {

/// The identifier that a text stands for, or `None` where it stands for
/// none. This is the reading of `sqlx::types::Uuid::parse_str`, with the
/// identifier taken as a number, most significant byte first.
pub uninterp spec fn identifier_of_text(text: Seq<char>) -> Option<u128>;

/// The lower-case hexadecimal digit for a number below sixteen.
pub open spec fn hex_digit(n: int) -> char {
    if n < 10 {
        (n + '0' as int) as char
    } else {
        (n - 10 + 'a' as int) as char
    }
}

/// Whether a hyphen stands at place `i` of the canonical text.
pub open spec fn is_hyphen_place(i: int) -> bool {
    i == 8 || i == 13 || i == 18 || i == 23
}

/// How many hyphens stand before place `i` of the canonical text.
pub open spec fn hyphens_before(i: int) -> int {
    if i > 23 {
        4
    } else if i > 18 {
        3
    } else if i > 13 {
        2
    } else if i > 8 {
        1
    } else {
        0
    }
}

/// The hexadecimal digit of `id` at place `k` of its 32, counted from the
/// most significant.
pub open spec fn nibble(id: u128, k: int) -> int {
    ((id >> ((4 * (31 - k)) as u128)) & 0xf) as int
}

/// The canonical text of an identifier: its 32 hexadecimal digits in lower
/// case, most significant first, in groups of 8, 4, 4, 4 and 12 with a hyphen
/// between each two.
pub open spec fn identifier_text(id: u128) -> Seq<char> {
    Seq::new(
        36,
        |i: int|
            if is_hyphen_place(i) {
                '-'
            } else {
                hex_digit(nibble(id, i - hyphens_before(i)))
            },
    )
}

/// Reads an identifier with `sqlx::types::Uuid::parse_str` and hands it out
/// as a number with `Uuid::as_u128`. The contract claims only that the
/// outcome is a function of the characters of the text: the same text reads
/// the same everywhere. Which texts read, and as what, is left to the parser.
#[verifier::external_body]
pub(crate) fn parse_identifier(text: &str) -> (id: Option<u128>)
    ensures
        id == identifier_of_text(text@),
{
    match sqlx::types::Uuid::parse_str(text) {
        Ok(uuid) => Some(uuid.as_u128()),
        Err(_) => None,
    }
}

/// Writes an identifier with the `Display` of `sqlx::types::Uuid`, made from
/// the number with `Uuid::from_u128`. The contract claims that the text is
/// the hyphenated lower-case form of the number's 16 bytes, most significant
/// first.
#[verifier::external_body]
pub(crate) fn write_identifier(id: u128) -> (text: String)
    ensures
        text@ == identifier_text(id),
{
    sqlx::types::Uuid::from_u128(id).to_string()
}

} // verus!
