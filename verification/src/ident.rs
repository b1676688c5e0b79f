//! Batch identifiers: 128-bit values, written as 32 hexadecimal digits in
//! five hyphenated groups.

use vstd::prelude::*;

verus! {

/// The bits that mark a value as a randomly generated identifier: the
/// version digit is 4 and the two variant bits are `10`.
pub open spec fn is_random_id(id: u128) -> bool {
    id & 0x0000_0000_0000_f000_c000_0000_0000_0000 == 0x0000_0000_0000_4000_8000_0000_0000_0000
}

/// The lower-case hexadecimal digit for a value below 16.
pub open spec fn hex_digit(value: u128) -> char {
    seq![
        '0', '1', '2', '3', '4', '5', '6', '7', '8', '9', 'a', 'b', 'c', 'd', 'e', 'f',
    ][value as int]
}

/// The `k`-th group of four bits of `id`, counted from the most significant
/// (`k` from 0 to 31).
pub open spec fn nibble(id: u128, k: int) -> u128 {
    (id >> ((4 * (31 - k)) as u128)) & 0xf
}

/// How many hyphens stand before place `i` of an identifier's text.
pub open spec fn hyphens_before(i: int) -> int {
    if i < 8 {
        0
    } else if i < 13 {
        1
    } else if i < 18 {
        2
    } else if i < 23 {
        3
    } else {
        4
    }
}

/// The canonical text of an identifier: 36 characters, hyphens at places 8,
/// 13, 18 and 23, and the 32 hexadecimal digits of the value in between, most
/// significant first, in lower case.
pub open spec fn id_text(id: u128) -> Seq<char> {
    Seq::new(
        36,
        |i: int|
            if i == 8 || i == 13 || i == 18 || i == 23 {
                '-'
            } else {
                hex_digit(nibble(id, i - hyphens_before(i)))
            },
    )
}

/// The identifier that a text stands for, if it stands for one. The accepted
/// forms are those of `uuid::Uuid::parse_str`.
pub uninterp spec fn parsed_id(text: Seq<char>) -> Option<u128>;

/// `uuid::Error`, the error of `uuid::Uuid::parse_str`. It is carried
/// through unread: nothing is claimed of what it holds.
#[verifier::external_type_specification]
#[verifier::external_body]
pub struct ExUuidError(uuid::Error);

/// Calls `uuid::Uuid::new_v4` and hands the value out as a `u128`. The value
/// comes from the operating system's random source, so nothing is claimed of
/// it but the version and variant bits that `new_v4` sets on every value. The
/// call panics if the random source cannot be read.
#[verifier::external_body]
pub(crate) fn random_uuid() -> (id: u128)
    ensures
        is_random_id(id),
{
    uuid::Uuid::new_v4().as_u128()
}

/// Formats `id` with the `Display` of `uuid::Uuid`, which writes the
/// hyphenated lower-case form: each byte, most significant first, as two
/// hexadecimal digits, with hyphens after the 8th, 12th, 16th and 20th digit.
/// The second clause says that `uuid::Uuid::parse_str` reads this text back
/// as `id`: a text of 36 bytes with hyphens at those four places is taken as
/// hyphenated, and its 32 digits are decoded two to a byte, in order.
#[verifier::external_body]
pub(crate) fn uuid_to_string(id: u128) -> (text: String)
    ensures
        text@ == id_text(id),
        parsed_id(text@) == Some(id),
{
    uuid::Uuid::from_u128(id).to_string()
}

/// Calls `uuid::Uuid::parse_str`. What it accepts is not spelled out here:
/// the contract only names the outcome, as a function of the text.
#[verifier::external_body]
pub(crate) fn uuid_parse_str(text: &str) -> (parsed: Result<u128, uuid::Error>)
    ensures
        match parsed {
            Ok(id) => parsed_id(text@) == Some(id),
            Err(_) => parsed_id(text@) is None,
        },
{
    match uuid::Uuid::parse_str(text) {
        Ok(id) => Ok(id.as_u128()),
        Err(e) => Err(e),
    }
}

/// A text that was given as an identifier and is none.
#[derive(Debug)]
pub struct InvalidId {
    pub text: String,
}

/// The canonical text of `id`. `parse_id` reads it back as `id`.
pub fn format_id(id: u128) -> (text: String)
    ensures
        text@ == id_text(id),
        text@.len() == 36,
        parsed_id(text@) == Some(id),
{
    uuid_to_string(id)
}

/// What becomes of a text once the parser has spoken: the identifier it
/// found, or the text itself as the error.
pub fn checked_id(text: &str, parsed: Option<u128>) -> (outcome: Result<u128, InvalidId>)
    ensures
        match outcome {
            Ok(id) => parsed == Some(id),
            Err(e) => parsed is None && e.text@ == text@,
        },
{
    match parsed {
        Some(id) => Ok(id),
        None => Err(InvalidId { text: text.to_owned() }),
    }
}

/// Reads an identifier from its text.
pub fn parse_id(text: &str) -> (outcome: Result<u128, InvalidId>)
    ensures
        match outcome {
            Ok(id) => parsed_id(text@) == Some(id),
            Err(e) => parsed_id(text@) is None && e.text@ == text@,
        },
{
    let parsed = match uuid_parse_str(text) {
        Ok(id) => Some(id),
        Err(_) => None,
    };
    checked_id(text, parsed)
}

} // verus!
