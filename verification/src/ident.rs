//! Identifiers. A record is known by a UUID, held here as its 128-bit value
//! and written in the store and on the wire in the hyphenated lower-case
//! form.

use vstd::prelude::*;

verus! {

/// What `uuid::Uuid::parse_str` reads from a text: the value of the
/// identifier written there, or `None` where the text is no UUID.
pub uninterp spec fn uuid_parsed(text: Seq<char>) -> Option<u128>;

/// The hexadecimal digit, counted from the most significant one, at place
/// `place` of the 32 digits of `id`.
pub open spec fn hex_place(id: u128, place: int) -> int {
    ((id >> (((31 - place) * 4) as u128)) & 0xf) as int
}

/// The hyphenated lower-case form of an identifier: 32 hexadecimal digits
/// in groups of 8, 4, 4, 4 and 12, with a hyphen between the groups.
pub open spec fn hyphenated(id: u128) -> Seq<char> {
    Seq::new(
        36,
        |at: int|
            if at == 8 || at == 13 || at == 18 || at == 23 {
                '-'
            } else if at < 8 {
                "0123456789abcdef"@[hex_place(id, at)]
            } else if at < 13 {
                "0123456789abcdef"@[hex_place(id, at - 1)]
            } else if at < 18 {
                "0123456789abcdef"@[hex_place(id, at - 2)]
            } else if at < 23 {
                "0123456789abcdef"@[hex_place(id, at - 3)]
            } else {
                "0123456789abcdef"@[hex_place(id, at - 4)]
            },
    )
}

/// An identifier is legible when the parser reads its hyphenated form back
/// as the same identifier.
pub open spec fn legible(id: u128) -> bool {
    uuid_parsed(hyphenated(id)) == Some(id)
}

/// The bits that mark an identifier as a random (version 4) UUID of the
/// RFC 4122 variant.
pub open spec fn is_random_uuid(id: u128) -> bool {
    id & 0x0000_0000_0000_f000_c000_0000_0000_0000 == 0x0000_0000_0000_4000_8000_0000_0000_0000
}

/// Reads an identifier with `uuid::Uuid::parse_str` and takes its value with
/// `Uuid::as_u128`. The result is what that parser makes of the text, which
/// depends on the text alone.
#[verifier::external_body]
pub(crate) fn read_uuid(text: &str) -> (id: Option<u128>)
    ensures
        id == uuid_parsed(text@),
{
    match uuid::Uuid::parse_str(text) {
        Ok(id) => Some(id.as_u128()),
        Err(_) => None,
    }
}

/// Writes an identifier as `uuid::Uuid` displays it: `Uuid::from_u128`, then
/// `to_string`, which gives the hyphenated lower-case form. The parser
/// accepts that form and reads the same value back from it.
#[verifier::external_body]
pub(crate) fn write_uuid(id: u128) -> (text: String)
    ensures
        text@ == hyphenated(id),
        uuid_parsed(text@) == Some(id),
{
    uuid::Uuid::from_u128(id).to_string()
}

/// Draws an identifier with `uuid::Uuid::new_v4`. Which one comes is left
/// open; whatever comes carries the version and variant bits that the
/// generator sets. The generator gives up, with a panic, only on a system
/// that hands out no random bytes.
#[verifier::external_body]
pub(crate) fn random_uuid() -> (id: u128)
    ensures
        is_random_uuid(id),
{
    uuid::Uuid::new_v4().as_u128()
}

} // verus!
