//! Device, session, transfer and file identifiers: 128-bit UUIDs held as `u128`.
use vstd::arithmetic::power::pow;
use vstd::prelude::*;

use crate::text::hex_digit;

verus! {

/// A fresh random (version 4) identifier, `uuid::Uuid::new_v4`.
/// Nothing is stated of its value: it is drawn at random.
#[verifier::external_body]
pub(crate) fn new_id() -> (id: u128) {
    uuid::Uuid::new_v4().as_u128()
}

/// The 32 lowercase hexadecimal digits of an identifier, most significant first.
pub open spec fn uuid_hex_digits(id: u128) -> Seq<char> {
    Seq::new(32, |k: int| hex_digit((id as int / pow(16, (31 - k) as nat)) % 16))
}

/// The hyphenated text of an identifier (8-4-4-4-12 lowercase hexadecimal digits).
pub open spec fn uuid_hyphenated(id: u128) -> Seq<char> {
    let d = uuid_hex_digits(id);
    d.subrange(0, 8) + seq!['-'] + d.subrange(8, 12) + seq!['-'] + d.subrange(12, 16) + seq!['-']
        + d.subrange(16, 20) + seq!['-'] + d.subrange(20, 32)
}

/// `Uuid::to_string` of the identifier: the documented `Display` form of a `Uuid`
/// is its hyphenated lowercase text.
#[verifier::external_body]
pub(crate) fn uuid_text(id: u128) -> (s: String)
    ensures
        s@ == uuid_hyphenated(id),
{
    uuid::Uuid::from_u128(id).to_string()
}

/// What `Uuid::parse_str` makes of a text: `Some` identifier, or `None` where it refuses it.
pub uninterp spec fn uuid_parse(s: Seq<char>) -> Option<u128>;

/// `uuid::Uuid::parse_str`: the identifier a text names, if it is one.
#[verifier::external_body]
pub(crate) fn parse_uuid(s: &str) -> (id: Option<u128>)
    ensures
        id == uuid_parse(s@),
{
    match uuid::Uuid::parse_str(s) {
        Ok(u) => Some(u.as_u128()),
        Err(_) => None,
    }
}

/// The identifier a text names, if it is one (as `Uuid::parse_str` reads it).
pub fn parse_id(text: &str) -> (r: Option<u128>)
    ensures
        r == uuid_parse(text@),
{
    parse_uuid(text)
}

/// The hyphenated lowercase text of an identifier.
pub fn id_text(id: u128) -> (s: String)
    ensures
        s@ == uuid_hyphenated(id),
{
    uuid_text(id)
}

} // verus!
