//! Identifiers of conversations and messages: 128-bit UUIDs and their text.

use vstd::prelude::*;
use vstd::arithmetic::power2::pow2;

verus! {

/// The lower-case hexadecimal digit of `n`, for `0 <= n < 16`.
pub open spec fn hex_digit(n: int) -> char {
    seq!['0', '1', '2', '3', '4', '5', '6', '7', '8', '9', 'a', 'b', 'c', 'd', 'e', 'f'][n]
}

/// The `k`-th four-bit group of `v`, counted from the most significant one.
pub open spec fn nibble(v: u128, k: int) -> int {
    ((v as int) / (pow2((124 - 4 * k) as nat) as int)) % 16
}

/// Which four-bit group the `i`-th character of the hyphenated form shows.
pub open spec fn hyphenated_group(i: int) -> int {
    if i < 8 {
        i
    } else if i < 13 {
        i - 1
    } else if i < 18 {
        i - 2
    } else if i < 23 {
        i - 3
    } else {
        i - 4
    }
}

/// The hyphenated lower-case form of a UUID, `xxxxxxxx-xxxx-xxxx-xxxx-xxxxxxxxxxxx`,
/// the most significant digit first.
pub open spec fn uuid_hyphenated(v: u128) -> Seq<char> {
    Seq::new(
        36,
        |i: int|
            if i == 8 || i == 13 || i == 18 || i == 23 {
                '-'
            } else {
                hex_digit(nibble(v, hyphenated_group(i)))
            },
    )
}

/// What the uuid crate's `Uuid::parse_str` reads from `text`, as the UUID's
/// 128-bit value, or `None` where it refuses the text.
pub uninterp spec fn uuid_read(text: Seq<char>) -> Option<u128>;

/// The version and variant bits of a random (version 4) UUID: the version
/// nibble is 4 and the two top variant bits are `10`.
pub open spec fn is_random_uuid(v: u128) -> bool {
    v & 0xF000_C000_0000_0000_0000u128 == 0x4000_8000_0000_0000_0000u128
}

/// Draws a UUID with the uuid crate's `Uuid::new_v4` and takes its value with
/// `as_u128`. The bits come from the random source; the contract claims only
/// that the version and variant bits are those of a version 4 UUID, which
/// `new_v4` sets by mask.
#[verifier::external_body]
fn random_uuid() -> (res: u128)
    ensures
        is_random_uuid(res),
{
    uuid::Uuid::new_v4().as_u128()
}

/// Writes a UUID with the uuid crate's `Uuid::from_u128` and its `Display`
/// (`to_string`), which is the hyphenated lower-case form.
#[verifier::external_body]
fn uuid_text(id: u128) -> (res: String)
    ensures
        res@ == uuid_hyphenated(id),
{
    uuid::Uuid::from_u128(id).to_string()
}

/// Reads a UUID with the uuid crate's `Uuid::parse_str` and takes its value
/// with `as_u128`. The contract claims that the result is the named result
/// `uuid_read` of the text, and that the hyphenated form, which `parse_str`
/// documents that it accepts, reads back as the UUID it was written from.
/// Which other texts it accepts is left unsaid.
#[verifier::external_body]
fn uuid_parse(text: &str) -> (res: Option<u128>)
    ensures
        res == uuid_read(text@),
        forall|v: u128| text@ == #[trigger] uuid_hyphenated(v) ==> res == Some(v),
{
    match uuid::Uuid::parse_str(text) {
        Ok(u) => Some(u.as_u128()),
        Err(_) => None,
    }
}

/// A fresh random identifier (a version 4 UUID).
pub fn new_id() -> (res: u128)
    ensures
        is_random_uuid(res),
{
    random_uuid()
}

/// The text an identifier is stored under: its hyphenated lower-case form.
pub fn id_text(id: u128) -> (res: String)
    ensures
        res@ == uuid_hyphenated(id),
        res@.len() == 36,
{
    uuid_text(id)
}

/// The identifier that a stored text names, or `None` where it names none.
pub fn parse_id(text: &str) -> (res: Option<u128>)
    ensures
        res == uuid_read(text@),
        forall|v: u128| text@ == #[trigger] uuid_hyphenated(v) ==> res == Some(v),
{
    uuid_parse(text)
}

} // verus!
