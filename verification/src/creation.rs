//! How a document comes to be: a payload is given a header that is made for
//! it.

use crate::clock::now;
use crate::fingerprint::{fingerprint, HASH_PREFIX};
use crate::ident::{random_uuid, uuid_syntax};
use crate::model::{within_unit, Glyph, GlyphHeader, GlyphPayload, Timestamp, MAGIC, VERSION};
use crate::validate::{conforms, lemma_valid_iff_conforms, violations};
use vstd::prelude::*;

verus! {

/// Whether a payload keeps the rules that speak of the payload: its label is
/// not empty, its confidence lies between zero and one, and none of its
/// relations has an empty target.
pub open spec fn sound(payload: GlyphPayload) -> bool {
    &&& payload.label@.len() > 0
    &&& within_unit(payload.truth_mode.confidence.bits)
    &&& forall|i: int|
        0 <= i < payload.relations@.len() ==> (#[trigger] payload.relations@[i]).target@.len() > 0
}

impl Glyph {
    /// The header that a payload gets under a given identifier at a given
    /// instant: the fixed magic and version, the identifier, the payload's
    /// fingerprint, no signature, and the instant as the time of creation.
    pub fn header_at(payload: &GlyphPayload, id: String, at: Timestamp) -> (res: GlyphHeader)
        ensures
            res.magic@ == MAGIC@,
            res.version@ == VERSION@,
            res.id == id,
            res.hash@ == fingerprint(*payload),
            res.signature is None,
            res.created_at == at,
    {
        GlyphHeader {
            magic: String::from_str(MAGIC),
            version: String::from_str(VERSION),
            id,
            hash: Glyph::compute_fingerprint(payload),
            signature: None,
            created_at: at,
        }
    }

    /// A header for a payload: that of `header_at` under a fresh random
    /// identifier at the present instant.
    pub fn generate_header(payload: &GlyphPayload) -> (res: GlyphHeader)
        ensures
            res.magic@ == MAGIC@,
            res.version@ == VERSION@,
            uuid_syntax(res.id@),
            res.hash@ == fingerprint(*payload),
            res.signature is None,
    {
        Glyph::header_at(payload, random_uuid(), now())
    }

    /// The document of a payload: the payload under a header made for it.
    ///
    /// Where the payload is sound, the document breaks no rule, unless it is
    /// validated before the instant of its creation.
    pub fn from_payload(payload: GlyphPayload) -> (res: Glyph)
        ensures
            res.payload == payload,
            res.header.magic@ == MAGIC@,
            res.header.version@ == VERSION@,
            uuid_syntax(res.header.id@),
            res.header.hash@ == fingerprint(payload),
            res.header.signature is None,
            sound(payload) ==> violations(res, false).len() == 0,
    {
        let header = Glyph::generate_header(&payload);
        let glyph = Glyph { header, payload };
        proof {
            assert(glyph.header.hash@.take(HASH_PREFIX@.len() as int) =~= HASH_PREFIX@);
            lemma_valid_iff_conforms(glyph, false);
        }
        glyph
    }
}

} // verus!
