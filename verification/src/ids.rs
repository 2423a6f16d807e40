use crate::text::hex_padded;
use vstd::prelude::*;

verus! {

/// A 128-bit identifier.  A fresh one starts with its time of creation, so
/// that identifiers sort in the order in which they were made.
pub type Id = u128;

/// The identifier of all zero bits, which stands for the local organisation.
pub const NIL: Id = 0;

/// The canonical text of an identifier: its 32 lower-case hexadecimal
/// digits, the highest first, in groups of 8, 4, 4, 4 and 12, with a hyphen
/// between two groups.
pub open spec fn uuid_text(id: u128) -> Seq<char> {
    hex_padded((id / 0x1_0000_0000_0000_0000_0000_0000) as nat, 8) + seq!['-'] + hex_padded(
        (id / 0x1_0000_0000_0000_0000_0000) as nat,
        4,
    ) + seq!['-'] + hex_padded((id / 0x1_0000_0000_0000_0000) as nat, 4) + seq!['-'] + hex_padded(
        (id / 0x1_0000_0000_0000) as nat,
        4,
    ) + seq!['-'] + hex_padded(id as nat, 12)
}

/// The identifier that a text names; `None` where the text names none.
pub uninterp spec fn uuid_parsed(text: Seq<char>) -> Option<u128>;

/// True for an identifier of the time-ordered kind: its version, the
/// thirteenth of its hexadecimal digits, is 7, and the two highest bits of
/// its seventeenth digit, the variant, are one and zero.
pub open spec fn is_time_ordered(id: u128) -> bool {
    (id / 0x1000_0000_0000_0000_0000) % 16 == 7 && (id / 0x4000_0000_0000_0000) % 4 == 2
}

/// Calls `uuid::Uuid::now_v7`.  Trusted: what comes back has the version 7
/// and the variant of RFC 9562.  Its other bits come from the clock and
/// from chance, and nothing is claimed of them.
#[verifier::external_body]
pub(crate) fn random_v7() -> (id: u128)
    ensures
        is_time_ordered(id),
{
    uuid::Uuid::now_v7().as_u128()
}

/// A new time-ordered identifier.
pub fn fresh_id() -> (id: Id)
    ensures
        is_time_ordered(id),
{
    random_v7()
}

/// Calls `Display` of `uuid::Uuid` on the identifier.  Trusted: what comes
/// back is the hyphenated lower-case text of the identifier, 36 characters
/// long, and `Uuid::parse_str` reads the identifier back from it.
#[verifier::external_body]
pub(crate) fn uuid_to_string(id: u128) -> (s: String)
    ensures
        s@ == uuid_text(id),
        s@.len() == 36,
        uuid_parsed(s@) == Some(id),
{
    uuid::Uuid::from_u128(id).to_string()
}

/// `uuid::Uuid::parse_str`: the identifier that the text names.
#[verifier::external_body]
pub(crate) fn uuid_from_str(text: &str) -> (r: Option<u128>)
    ensures
        r == uuid_parsed(text@),
{
    uuid::Uuid::parse_str(text).ok().map(|u| u.as_u128())
}

/// The canonical text of `id`, from which [`parse_id`] reads `id` back.
pub fn id_to_string(id: Id) -> (s: String)
    ensures
        s@ == uuid_text(id),
        s@.len() == 36,
        uuid_parsed(s@) == Some(id),
{
    uuid_to_string(id)
}

/// The identifier that `text` names, if it names one.
pub fn parse_id(text: &str) -> (r: Option<Id>)
    ensures
        r == uuid_parsed(text@),
{
    uuid_from_str(text)
}

} // verus!
