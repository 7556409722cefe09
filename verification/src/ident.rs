//! Document identifiers: universally unique identifiers in text form, parsed
//! and drawn by the `uuid` crate.

use crate::model::Glyph;
use vstd::prelude::*;

verus! {

/// Whether `uuid::Uuid::parse_str` accepts the text: thirty-two hexadecimal
/// digits in one of the simple, hyphenated, URN or braced layouts.
pub uninterp spec fn uuid_syntax(text: Seq<char>) -> bool;

/// Calls `uuid::Uuid::parse_str` and reports whether it accepted the text.
#[verifier::external_body]
pub(crate) fn parses_as_uuid(text: &str) -> (res: bool)
    ensures
        res == uuid_syntax(text@),
{
    uuid::Uuid::parse_str(text).is_ok()
}

/// Calls `uuid::Uuid::new_v4` and writes the identifier in the hyphenated
/// lower-case layout, which `uuid::Uuid::parse_str` accepts. The identifier is
/// drawn at random, so nothing more is claimed of it.
#[verifier::external_body]
pub(crate) fn random_uuid() -> (res: String)
    ensures
        uuid_syntax(res@),
{
    uuid::Uuid::new_v4().to_string()
}

impl Glyph {
    /// Gives the document a fresh identifier, drawn at random. Nothing else
    /// changes; the fingerprint in particular stays, for the identifier is no
    /// part of what is hashed.
    pub fn regenerate_id(&mut self)
        ensures
            uuid_syntax(final(self).header.id@),
            final(self).payload == old(self).payload,
            final(self).header.magic == old(self).header.magic,
            final(self).header.version == old(self).header.version,
            final(self).header.hash == old(self).header.hash,
            final(self).header.signature == old(self).header.signature,
            final(self).header.created_at == old(self).header.created_at,
    {
        self.header.id = random_uuid();
    }
}

} // verus!
