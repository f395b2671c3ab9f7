//! 128-bit identifiers of users and content, written and read in the
//! usual hyphenated form.

use vstd::prelude::*;

verus! {

/// A universally unique identifier as its 128 bits.
#[derive(Clone, Copy, Debug, PartialEq, Eq, Hash, Structural)]
pub struct Uuid {
    pub bits: u128,
}

/// The error that the `uuid` crate reports for text that is no identifier.
#[verifier::external_type_specification]
#[verifier::external_body]
pub struct ExUuidError(uuid::Error);

/// The text of the identifier with the given bits: lower-case
/// hexadecimal digits in hyphenated groups, as `uuid` displays it.
pub uninterp spec fn uuid_text(bits: u128) -> Seq<char>;

/// The bits of the identifier that `text` spells, if it spells one, as
/// `uuid` parses it.
pub uninterp spec fn uuid_parse(text: Seq<char>) -> Option<u128>;

/// `Uuid::from_u128(bits).to_string()` of the `uuid` crate.
///
/// Trusted: the result is what `uuid_text` names, and parsing it gives
/// the same bits back (the crate documents that its parser reads every
/// format that it writes).
#[verifier::external_body]
fn uuid_render(bits: u128) -> (r: String)
    ensures
        r@ == uuid_text(bits),
        uuid_parse(r@) == Some(bits),
{
    uuid::Uuid::from_u128(bits).to_string()
}

/// `Uuid::parse_str` of the `uuid` crate, followed by `as_u128`.
///
/// Trusted: the outcome is what `uuid_parse` names; on failure the
/// crate's own error comes back.
#[verifier::external_body]
fn uuid_parse_str(text: &str) -> (r: Result<u128, uuid::Error>)
    ensures
        match r {
            Ok(bits) => uuid_parse(text@) == Some(bits),
            Err(_) => uuid_parse(text@) is None,
        },
{
    match uuid::Uuid::parse_str(text) {
        Ok(id) => Ok(id.as_u128()),
        Err(e) => Err(e),
    }
}

/// Whether `bits` are those of a random (version 4) identifier of the
/// standard layout: the version field, the four bits from bit 76 up,
/// reads 4, and the variant field, the two bits from bit 62 up, reads
/// binary 10. The other 122 bits are free.
pub open spec fn is_random_uuid(bits: u128) -> bool {
    bits & 0x0000_0000_0000_f000_c000_0000_0000_0000 == 0x0000_0000_0000_4000_8000_0000_0000_0000
}

/// `Uuid::new_v4` of the `uuid` crate: a random identifier.
///
/// Trusted: the crate masks the random bits so that version and variant
/// read as those of a version 4 identifier. Nothing is claimed of the
/// other bits.
#[verifier::external_body]
fn uuid_random() -> (r: u128)
    ensures
        is_random_uuid(r),
{
    uuid::Uuid::new_v4().as_u128()
}

/// The `Display` text of an error of the `uuid` crate.
///
/// Trusted: nothing is claimed of the text.
#[verifier::external_body]
fn uuid_error_text(e: &uuid::Error) -> String {
    e.to_string()
}

impl Uuid {
    /// The identifier with the given bits.
    pub fn from_u128(bits: u128) -> (r: Uuid)
        ensures
            r.bits == bits,
    {
        Uuid { bits }
    }

    /// The bits of the identifier.
    pub fn as_u128(&self) -> (r: u128)
        ensures
            r == self.bits,
    {
        self.bits
    }

    /// A fresh random identifier: version and variant mark it as a
    /// version 4 identifier, the other bits come from the random source
    /// of the operating system.
    pub fn new_v4() -> (r: Uuid)
        ensures
            is_random_uuid(r.bits),
    {
        Uuid { bits: uuid_random() }
    }

    /// The hyphenated text of the identifier. Reading the text back
    /// gives the identifier.
    pub fn to_text(&self) -> (r: String)
        ensures
            r@ == uuid_text(self.bits),
            uuid_parse(r@) == Some(self.bits),
    {
        uuid_render(self.bits)
    }

    /// Reads an identifier; on failure the reason as text.
    pub fn parse_str(text: &str) -> (r: Result<Uuid, String>)
        ensures
            match r {
                Ok(id) => uuid_parse(text@) == Some(id.bits),
                Err(_) => uuid_parse(text@) is None,
            },
    {
        match uuid_parse_str(text) {
            Ok(bits) => Ok(Uuid { bits }),
            Err(e) => Err(uuid_error_text(&e)),
        }
    }
}

} // verus!
