//! Task identifiers. A task is known by a number of a hundred and twenty-eight
//! bits, which the `uuid` crate draws, reads and writes.

use vstd::prelude::*;

verus! {

/// The hexadecimal digit, in lower case, that stands `place` digits from the
/// left when `id` is written as thirty-two of them.
pub open spec fn hex_digit_at(id: u128, place: int) -> char {
    "0123456789abcdef"@[((id >> ((4 * (31 - place)) as u128)) & 0xf) as int]
}

/// An identifier in its hyphenated form: thirty-two hexadecimal digits in
/// lower case, most significant first, in groups of eight, four, four, four
/// and twelve with a hyphen between groups.
pub open spec fn task_id_text_of(id: u128) -> Seq<char> {
    Seq::new(
        36,
        |i: int|
            if i == 8 || i == 13 || i == 18 || i == 23 {
                '-'
            } else if i < 8 {
                hex_digit_at(id, i)
            } else if i < 13 {
                hex_digit_at(id, i - 1)
            } else if i < 18 {
                hex_digit_at(id, i - 2)
            } else if i < 23 {
                hex_digit_at(id, i - 3)
            } else {
                hex_digit_at(id, i - 4)
            },
    )
}

/// The identifier that `uuid::Uuid::parse_str` reads from a text, if it reads
/// one.
pub uninterp spec fn parsed_task_id(text: Seq<char>) -> Option<u128>;

/// Whether an identifier has the form of a random one: its version digit is
/// four, and the two leading bits of its variant digit are one and zero.
pub open spec fn is_random_form(id: u128) -> bool {
    &&& (id >> 76) & 0xf == 4
    &&& (id >> 62) & 0x3 == 2
}

/// `uuid::Uuid::new_v4` draws a hundred and twenty-eight random bits and sets
/// the version and variant among them. Which identifier comes back is left
/// open; only its form is promised.
#[verifier::external_body]
pub(crate) fn fresh_task_id() -> (id: u128)
    ensures
        is_random_form(id),
{
    uuid::Uuid::new_v4().as_u128()
}

/// `uuid::Uuid::parse_str` reads an identifier from hexadecimal digits, with
/// or without hyphens, braces or a `urn:uuid:` prefix. What it reads is a
/// function of the text alone; it is named, not spelled out.
#[verifier::external_body]
pub(crate) fn parse_task_id(text: &str) -> (id: Option<u128>)
    ensures
        id == parsed_task_id(text@),
{
    match uuid::Uuid::parse_str(text) {
        Ok(id) => Some(id.as_u128()),
        Err(_) => None,
    }
}

/// `uuid::Uuid` displays itself in the hyphenated form, in lower case.
#[verifier::external_body]
pub(crate) fn task_id_text(id: u128) -> (text: String)
    ensures
        text@ == task_id_text_of(id),
{
    uuid::Uuid::from_u128(id).to_string()
}

} // verus!
