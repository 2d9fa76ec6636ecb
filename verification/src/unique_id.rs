//! Universally unique identifiers, as the `uuid` crate makes, writes and reads them.

use vstd::prelude::*;
use crate::text::digit_char;

verus! {

/// What the `uuid` crate reads out of a text: the value of the identifier, or nothing.
pub uninterp spec fn parsed(text: Seq<char>) -> Option<u128>;

/// Whether a position of the text of an identifier holds a hyphen.
pub open spec fn is_hyphen(i: int) -> bool {
    i == 8 || i == 13 || i == 18 || i == 23
}

/// How many hyphens stand before a position of the text of an identifier.
pub open spec fn hyphens_before(i: int) -> int {
    if i <= 8 { 0 } else if i <= 13 { 1 } else if i <= 18 { 2 } else if i <= 23 { 3 } else { 4 }
}

/// The hexadecimal digit of a value at a position, counted from the most significant one.
pub open spec fn hex_digit_at(value: u128, position: int) -> int {
    (value as int / vstd::arithmetic::power::pow(16, (31 - position) as nat)) % 16
}

/// The text of an identifier: its thirty-two lower case hexadecimal digits, in groups of
/// eight, four, four, four and twelve that hyphens separate.
pub open spec fn hyphenated(value: u128) -> Seq<char> {
    Seq::new(
        36,
        |i: int|
            if is_hyphen(i) {
                '-'
            } else {
                digit_char(hex_digit_at(value, i - hyphens_before(i)))
            },
    )
}

/// Whether an identifier is marked as drawn at random: version four, in the variant that
/// the version belongs to.
pub open spec fn is_random_version(value: u128) -> bool {
    &&& hex_digit_at(value, 12) == 4
    &&& 8 <= hex_digit_at(value, 16) <= 11
}

/// Draws an identifier with `uuid::Uuid::new_v4`.
///
/// Every outcome carries the version and the variant of a random identifier; nothing else is
/// known of it.
#[verifier::external_body]
pub(crate) fn random() -> (value: u128)
    ensures
        is_random_version(value),
{
    uuid::Uuid::new_v4().as_u128()
}

/// Writes an identifier with the `Display` of `uuid::Uuid`, whose text is the hyphenated one
/// in lower case.
#[verifier::external_body]
pub(crate) fn write(value: u128) -> (text: String)
    ensures
        text@ == hyphenated(value),
{
    uuid::Uuid::from_u128(value).to_string()
}

/// Reads an identifier with `uuid::Uuid::parse_str`.
///
/// What is read is a function of the text alone, named `parsed`; the hyphenated text of a
/// value is read as that value. The other notations that the function takes (without
/// hyphens, in braces, as a URN, in upper case) are not stated.
#[verifier::external_body]
pub(crate) fn parse(text: &str) -> (value: Option<u128>)
    ensures
        value == parsed(text@),
        forall|v: u128| text@ == #[trigger] hyphenated(v) ==> value == Some(v),
{
    uuid::Uuid::parse_str(text).ok().map(|id| id.as_u128())
}

} // verus!
