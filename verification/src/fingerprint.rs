//! The semantic fingerprint: a digest of the identity claims of a payload.
//!
//! Only the label, the classes, the kind of truth mode and the knowledge-base
//! anchor enter the fingerprint. Aliases, relations, provenance, media and
//! overlays do not.

use crate::digest::{blake3_digest, blake3_hash, hex_encode, hex_text, lemma_hex_len};
use crate::model::{text_or_empty, Glyph, GlyphPayload};
use crate::text::{join, joined, texts};
use vstd::prelude::*;
use vstd::utf8::encode_utf8;

verus! {

/// The prefix that names the hash algorithm of a fingerprint.
pub const HASH_PREFIX: &'static str = "blake3:";

/// The text that is hashed: label, classes joined by commas, kind of truth
/// mode and knowledge-base anchor, with a bar between neighbours. A missing
/// anchor counts as the empty text.
pub open spec fn semantic_content(payload: GlyphPayload) -> Seq<char> {
    payload.label@ + "|"@ + joined(texts(payload.classes@), ","@) + "|"@
        + payload.truth_mode.kind@ + "|"@ + text_or_empty(payload.grounding.wikidata)
}

/// The fingerprint of a text: the name of the hash algorithm, a colon, and
/// the digest of the text's UTF-8 bytes in lower-case hexadecimal.
pub open spec fn fingerprint_of(content: Seq<char>) -> Seq<char> {
    HASH_PREFIX@ + hex_text(blake3_digest(encode_utf8(content)))
}

/// The fingerprint of a payload.
pub open spec fn fingerprint(payload: GlyphPayload) -> Seq<char> {
    fingerprint_of(semantic_content(payload))
}

/// The fingerprint is a function of the label, the classes, the kind of truth
/// mode and the knowledge-base anchor alone: two payloads that agree on these
/// have the same fingerprint, whatever their aliases, relations, provenance,
/// media and overlays are.
pub proof fn lemma_fingerprint_of_identity_claims(a: GlyphPayload, b: GlyphPayload)
    requires
        a.label@ == b.label@,
        texts(a.classes@) == texts(b.classes@),
        a.truth_mode.kind@ == b.truth_mode.kind@,
        text_or_empty(a.grounding.wikidata) == text_or_empty(b.grounding.wikidata),
    ensures
        fingerprint(a) == fingerprint(b),
{
}

impl Glyph {
    /// The text of a payload that is hashed.
    pub fn extract_semantic_content(payload: &GlyphPayload) -> (res: String)
        ensures
            res@ == semantic_content(*payload),
    {
        let mut content = payload.label.clone();
        content.append("|");
        content.append(join(&payload.classes, ",").as_str());
        content.append("|");
        content.append(payload.truth_mode.kind.as_str());
        content.append("|");
        if let Some(anchor) = &payload.grounding.wikidata {
            content.append(anchor.as_str());
        }
        content
    }

    /// The fingerprint of a text: seventy-one characters, seven of prefix
    /// and sixty-four of digest.
    pub fn compute_hash(content: &str) -> (res: String)
        ensures
            res@ == fingerprint_of(content@),
            res@.len() == 71,
    {
        let digest = blake3_hash(content.as_bytes());
        proof {
            reveal_strlit("blake3:");
            lemma_hex_len(digest@);
        }
        let mut hash = String::from_str(HASH_PREFIX);
        hash.append(hex_encode(digest.as_slice()).as_str());
        hash
    }

    /// The fingerprint of a payload.
    pub fn compute_fingerprint(payload: &GlyphPayload) -> (res: String)
        ensures
            res@ == fingerprint(*payload),
            res@.len() == 71,
    {
        let content = Glyph::extract_semantic_content(payload);
        Glyph::compute_hash(content.as_str())
    }
}

} // verus!
