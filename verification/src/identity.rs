//! Identifiers of sales, sale lines and products: 128-bit values that are
//! written in the hyphenated hexadecimal form of a UUID.

use vstd::prelude::*;

verus! {

/// The lowercase hexadecimal digit for a value below sixteen.
pub open spec fn hex_digit(value: int) -> char {
    if value < 10 {
        (('0' as u8) + value) as char
    } else {
        (('a' as u8) + value - 10) as char
    }
}

/// Sixteen to the power `exponent`.
pub open spec fn sixteen_to(exponent: nat) -> int
    decreases exponent,
{
    if exponent == 0 {
        1
    } else {
        16 * sixteen_to((exponent - 1) as nat)
    }
}

/// The value, below sixteen, of the hexadecimal digit of `id` at
/// `position`, counted from the most significant of its thirty-two digits.
pub open spec fn nibble_at(id: u128, position: int) -> int {
    (id as int / sixteen_to((31 - position) as nat)) % 16
}

/// The hexadecimal digit of `id` at `position`, counted from the most
/// significant of its thirty-two digits.
pub open spec fn digit_at(id: u128, position: int) -> char {
    hex_digit(nibble_at(id, position))
}

/// The identifier is a random UUID: its version digit, the first of the
/// third group, is 4, and its variant digit, the first of the fourth group,
/// is 8, 9, a or b. All other digits are left to chance.
pub open spec fn is_random_identifier(id: u128) -> bool {
    nibble_at(id, 12) == 4 && 8 <= nibble_at(id, 16) <= 11
}

/// `count` consecutive hexadecimal digits of `id`, starting at `start`.
pub open spec fn digit_run(id: u128, start: int, count: nat) -> Seq<char> {
    Seq::new(count, |i: int| digit_at(id, start + i))
}

/// The hyphenated text of an identifier: thirty-two lowercase hexadecimal
/// digits, most significant first, in groups of 8, 4, 4, 4 and 12.
pub open spec fn identifier_text(id: u128) -> Seq<char> {
    digit_run(id, 0, 8) + seq!['-'] + digit_run(id, 8, 4) + seq!['-'] + digit_run(id, 12, 4)
        + seq!['-'] + digit_run(id, 16, 4) + seq!['-'] + digit_run(id, 20, 12)
}

/// Calls `uuid::Uuid::new_v4` and returns the new identifier as an integer.
/// The value is random. The contract claims what the crate's source sets
/// in every outcome: the version digit 4 and the variant bits of RFC 9562.
#[verifier::external_body]
fn random_uuid() -> (id: u128)
    ensures
        is_random_identifier(id),
{
    uuid::Uuid::new_v4().as_u128()
}

/// Calls `uuid::Uuid::from_u128` and formats the result with its `Display`
/// impl. The contract claims what the crate documents for that impl: the
/// lowercase hyphenated form, digits in big-endian order.
#[verifier::external_body]
fn uuid_to_string(id: u128) -> (text: String)
    ensures
        text@ == identifier_text(id),
{
    uuid::Uuid::from_u128(id).to_string()
}

/// A fresh identifier for a sale or a sale line: a random UUID.
pub fn fresh_identifier() -> (id: u128)
    ensures
        is_random_identifier(id),
{
    random_uuid()
}

/// The identifier as it is printed and stored.
pub fn format_identifier(id: u128) -> (text: String)
    ensures
        text@ == identifier_text(id),
        text@.len() == 36,
{
    uuid_to_string(id)
}

} // verus!
