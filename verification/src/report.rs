//! What a document is shown as: a report for people, a one-glance summary,
//! and single fields by their dotted paths.

use crate::clock::{display, rfc3339, utc_display, utc_rfc3339};
use crate::model::{text_or_empty, Glyph, Relation};
use crate::text::{decimal, decimal_text, join, joined, same_text, texts};
use vstd::prelude::*;

verus! {

/// The fields that can be read by a dotted path. The set is closed: a path
/// that names none of them names nothing.
#[derive(Debug, Clone, Copy, PartialEq, Eq)]
pub enum Field {
    HeaderMagic,
    HeaderVersion,
    HeaderId,
    HeaderHash,
    HeaderSignature,
    HeaderCreatedAt,
    PayloadLabel,
    PayloadTruthModeType,
    PayloadTruthModeConfidence,
    PayloadGroundingWikidata,
}

/// A path that names no field.
#[derive(Debug, Clone, PartialEq, Eq)]
pub struct UnknownFieldError {
    pub path: String,
}

/// The field that a dotted path names.
pub open spec fn field_named(path: Seq<char>) -> Option<Field> {
    if path == "header.magic"@ {
        Some(Field::HeaderMagic)
    } else if path == "header.version"@ {
        Some(Field::HeaderVersion)
    } else if path == "header.id"@ {
        Some(Field::HeaderId)
    } else if path == "header.hash"@ {
        Some(Field::HeaderHash)
    } else if path == "header.signature"@ {
        Some(Field::HeaderSignature)
    } else if path == "header.created_at"@ {
        Some(Field::HeaderCreatedAt)
    } else if path == "payload.label"@ {
        Some(Field::PayloadLabel)
    } else if path == "payload.truth_mode.type"@ {
        Some(Field::PayloadTruthModeType)
    } else if path == "payload.truth_mode.confidence"@ {
        Some(Field::PayloadTruthModeConfidence)
    } else if path == "payload.grounding.wikidata"@ {
        Some(Field::PayloadGroundingWikidata)
    } else {
        None
    }
}

/// The text of a field of a document. A missing signature or anchor reads as
/// the empty text; the time of creation reads in RFC 3339 form.
pub open spec fn field_text(glyph: Glyph, field: Field) -> Seq<char> {
    match field {
        Field::HeaderMagic => glyph.header.magic@,
        Field::HeaderVersion => glyph.header.version@,
        Field::HeaderId => glyph.header.id@,
        Field::HeaderHash => glyph.header.hash@,
        Field::HeaderSignature => text_or_empty(glyph.header.signature),
        Field::HeaderCreatedAt => utc_rfc3339(
            glyph.header.created_at@.0,
            glyph.header.created_at@.1,
        ),
        Field::PayloadLabel => glyph.payload.label@,
        Field::PayloadTruthModeType => glyph.payload.truth_mode.kind@,
        Field::PayloadTruthModeConfidence => glyph.payload.truth_mode.confidence.text@,
        Field::PayloadGroundingWikidata => text_or_empty(glyph.payload.grounding.wikidata),
    }
}

/// One line of a report: a caption, a value and a line feed.
pub open spec fn line(caption: Seq<char>, value: Seq<char>) -> Seq<char> {
    caption + value + "\n"@
}

/// The lines that list relations: one for each, indented, kind and target
/// with an arrow between them.
pub open spec fn relation_lines(relations: Seq<Relation>) -> Seq<char>
    decreases relations.len(),
{
    if relations.len() == 0 {
        Seq::empty()
    } else {
        relation_lines(relations.drop_last()) + "  "@ + relations.last().kind@ + " -> "@
            + relations.last().target@ + "\n"@
    }
}

/// The report of a document: label, identifier, version, time of creation
/// and fingerprint; the signature if there is one; classes and truth mode;
/// who verified the claim, if anyone; the relations, if any; and the
/// knowledge-base anchor if there is one.
pub open spec fn report_text(glyph: Glyph) -> Seq<char> {
    line("GLYPH: "@, glyph.payload.label@)
    + line("ID: "@, glyph.header.id@)
    + line("Version: "@, glyph.header.version@)
    + line("Created: "@, utc_display(glyph.header.created_at@.0, glyph.header.created_at@.1))
    + line("Hash: "@, glyph.header.hash@)
    + (match glyph.header.signature {
        Some(signature) => line("Signature: "@, signature@),
        None => Seq::empty(),
    })
    + line("Classes: "@, joined(texts(glyph.payload.classes@), ", "@))
    + line(
        "Truth Mode: "@,
        glyph.payload.truth_mode.kind@ + " (confidence: "@
            + glyph.payload.truth_mode.confidence.text@ + ")"@,
    )
    + (if glyph.payload.truth_mode.verified_by@.len() > 0 {
        line("Verified by: "@, joined(texts(glyph.payload.truth_mode.verified_by@), ", "@))
    } else {
        Seq::empty()
    })
    + (if glyph.payload.relations@.len() > 0 {
        "Relations:\n"@ + relation_lines(glyph.payload.relations@)
    } else {
        Seq::empty()
    })
    + (match glyph.payload.grounding.wikidata {
        Some(anchor) => line("Wikidata: "@, anchor@),
        None => Seq::empty(),
    })
}

/// The summary of a document: label and identifier, version, time of
/// creation, fingerprint, signature or the word `None`, classes, and the
/// number of relations, each on a line of its own.
pub open spec fn info_text(glyph: Glyph) -> Seq<char> {
    "Glyph: "@ + glyph.payload.label@ + " (ID: "@ + glyph.header.id@ + ")\nVersion: "@
        + glyph.header.version@ + "\nCreated: "@ + utc_display(
        glyph.header.created_at@.0,
        glyph.header.created_at@.1,
    ) + "\nHash: "@ + glyph.header.hash@ + "\nSignature: "@ + (match glyph.header.signature {
        Some(signature) => signature@,
        None => "None"@,
    }) + "\nClasses: "@ + joined(texts(glyph.payload.classes@), ", "@) + "\nRelations: "@
        + decimal_text(glyph.payload.relations@.len())
}

/// The path `payload.label` reads the label of every document, and the path
/// `payload.unknown` names no field.
pub proof fn lemma_label_path(glyph: Glyph)
    ensures
        field_named("payload.label"@) == Some(Field::PayloadLabel),
        field_text(glyph, Field::PayloadLabel) == glyph.payload.label@,
        field_named("payload.unknown"@) is None,
{
    reveal_strlit("header.magic");
    reveal_strlit("header.version");
    reveal_strlit("header.id");
    reveal_strlit("header.hash");
    reveal_strlit("header.signature");
    reveal_strlit("header.created_at");
    reveal_strlit("payload.label");
    reveal_strlit("payload.truth_mode.type");
    reveal_strlit("payload.truth_mode.confidence");
    reveal_strlit("payload.grounding.wikidata");
    reveal_strlit("payload.unknown");
    assert("header.magic"@[0] == 'h');
    assert("header.version"@[0] == 'h');
    assert("header.id"@[0] == 'h');
    assert("header.hash"@[0] == 'h');
    assert("header.signature"@[0] == 'h');
    assert("header.created_at"@[0] == 'h');
    assert("payload.label"@[8] == 'l');
    assert("payload.truth_mode.type"@[8] == 't');
    assert("payload.truth_mode.confidence"@[8] == 't');
    assert("payload.grounding.wikidata"@[8] == 'g');
}

/// Adds a caption, a value and a line feed to a text.
fn push_line(text: &mut String, caption: &str, value: &str)
    ensures
        final(text)@ == old(text)@ + line(caption@, value@),
{
    text.append(caption);
    text.append(value);
    text.append("\n");
}

/// The field that a dotted path names, if it names one.
pub fn parse_field(path: &str) -> (res: Option<Field>)
    ensures
        res == field_named(path@),
{
    if same_text(path, "header.magic") {
        Some(Field::HeaderMagic)
    } else if same_text(path, "header.version") {
        Some(Field::HeaderVersion)
    } else if same_text(path, "header.id") {
        Some(Field::HeaderId)
    } else if same_text(path, "header.hash") {
        Some(Field::HeaderHash)
    } else if same_text(path, "header.signature") {
        Some(Field::HeaderSignature)
    } else if same_text(path, "header.created_at") {
        Some(Field::HeaderCreatedAt)
    } else if same_text(path, "payload.label") {
        Some(Field::PayloadLabel)
    } else if same_text(path, "payload.truth_mode.type") {
        Some(Field::PayloadTruthModeType)
    } else if same_text(path, "payload.truth_mode.confidence") {
        Some(Field::PayloadTruthModeConfidence)
    } else if same_text(path, "payload.grounding.wikidata") {
        Some(Field::PayloadGroundingWikidata)
    } else {
        None
    }
}

impl UnknownFieldError {
    /// The text that the error is shown as.
    pub fn message(&self) -> (res: String)
        ensures
            res@ == "Unknown field: "@ + self.path@,
    {
        let mut text = String::from_str("Unknown field: ");
        text.append(self.path.as_str());
        text
    }
}

impl Glyph {
    /// The text of a field.
    pub fn field_value(&self, field: Field) -> (res: String)
        ensures
            res@ == field_text(*self, field),
    {
        match field {
            Field::HeaderMagic => self.header.magic.clone(),
            Field::HeaderVersion => self.header.version.clone(),
            Field::HeaderId => self.header.id.clone(),
            Field::HeaderHash => self.header.hash.clone(),
            Field::HeaderSignature => match &self.header.signature {
                Some(signature) => signature.clone(),
                None => String::new(),
            },
            Field::HeaderCreatedAt => rfc3339(&self.header.created_at),
            Field::PayloadLabel => self.payload.label.clone(),
            Field::PayloadTruthModeType => self.payload.truth_mode.kind.clone(),
            Field::PayloadTruthModeConfidence => self.payload.truth_mode.confidence.text.clone(),
            Field::PayloadGroundingWikidata => match &self.payload.grounding.wikidata {
                Some(anchor) => anchor.clone(),
                None => String::new(),
            },
        }
    }

    /// The text of the field that a dotted path names. A path outside the
    /// closed set of field paths is an error that holds the path.
    pub fn extract_field(&self, field_path: &str) -> (res: Result<String, UnknownFieldError>)
        ensures
            match res {
                Ok(value) => field_named(field_path@) matches Some(field) && value@ == field_text(
                    *self,
                    field,
                ),
                Err(error) => field_named(field_path@) is None && error.path@ == field_path@,
            },
    {
        match parse_field(field_path) {
            Some(field) => Ok(self.field_value(field)),
            None => Err(UnknownFieldError { path: String::from_str(field_path) }),
        }
    }

    /// The report of the document for people to read.
    pub fn to_text(&self) -> (res: String)
        ensures
            res@ == report_text(*self),
    {
        let mut text = String::new();
        push_line(&mut text, "GLYPH: ", self.payload.label.as_str());
        push_line(&mut text, "ID: ", self.header.id.as_str());
        push_line(&mut text, "Version: ", self.header.version.as_str());
        push_line(&mut text, "Created: ", display(&self.header.created_at).as_str());
        push_line(&mut text, "Hash: ", self.header.hash.as_str());
        if let Some(signature) = &self.header.signature {
            push_line(&mut text, "Signature: ", signature.as_str());
        }
        push_line(&mut text, "Classes: ", join(&self.payload.classes, ", ").as_str());
        let mut truth = self.payload.truth_mode.kind.clone();
        truth.append(" (confidence: ");
        truth.append(self.payload.truth_mode.confidence.text.as_str());
        truth.append(")");
        push_line(&mut text, "Truth Mode: ", truth.as_str());
        if self.payload.truth_mode.verified_by.len() > 0 {
            push_line(
                &mut text,
                "Verified by: ",
                join(&self.payload.truth_mode.verified_by, ", ").as_str(),
            );
        }
        if self.payload.relations.len() > 0 {
            text.append("Relations:\n");
            let ghost head = text@;
            let mut i: usize = 0;
            while i < self.payload.relations.len()
                invariant
                    i <= self.payload.relations.len(),
                    text@ == head + relation_lines(self.payload.relations@.take(i as int)),
                decreases self.payload.relations.len() - i,
            {
                assert(self.payload.relations@.take(i + 1).drop_last()
                    =~= self.payload.relations@.take(i as int));
                let relation = &self.payload.relations[i];
                text.append("  ");
                text.append(relation.kind.as_str());
                text.append(" -> ");
                text.append(relation.target.as_str());
                text.append("\n");
                i = i + 1;
            }
            assert(self.payload.relations@.take(i as int) =~= self.payload.relations@);
        }
        if let Some(anchor) = &self.payload.grounding.wikidata {
            push_line(&mut text, "Wikidata: ", anchor.as_str());
        }
        text
    }

    /// The summary of the document.
    pub fn get_info(&self) -> (res: String)
        ensures
            res@ == info_text(*self),
    {
        let mut text = String::from_str("Glyph: ");
        text.append(self.payload.label.as_str());
        text.append(" (ID: ");
        text.append(self.header.id.as_str());
        text.append(")\nVersion: ");
        text.append(self.header.version.as_str());
        text.append("\nCreated: ");
        text.append(display(&self.header.created_at).as_str());
        text.append("\nHash: ");
        text.append(self.header.hash.as_str());
        text.append("\nSignature: ");
        match &self.header.signature {
            Some(signature) => {
                text.append(signature.as_str());
            },
            None => {
                text.append("None");
            },
        }
        text.append("\nClasses: ");
        text.append(join(&self.payload.classes, ", ").as_str());
        text.append("\nRelations: ");
        text.append(decimal(self.payload.relations.len()).as_str());
        text
    }
}

} // verus!
