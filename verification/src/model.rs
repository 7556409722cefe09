//! The document model: a header of format metadata and a payload of semantic
//! content, held as plain data with public fields.

use vstd::prelude::*;

verus! {

/// The literal that opens every header.
pub const MAGIC: &'static str = "GLYPH";

/// The one format version that is understood.
pub const VERSION: &'static str = "0.1";

/// Earliest second, counted from the Unix epoch, of the supported calendar
/// (the first second of the year -262143).
pub const MIN_SECS: i64 = -8_334_601_228_800;

/// Latest second, counted from the Unix epoch, of the supported calendar
/// (the last second of the year 262142).
pub const MAX_SECS: i64 = 8_210_266_876_799;

/// Whether a count of seconds since the Unix epoch and a count of nanoseconds
/// within that second name an instant of the supported calendar. A nanosecond
/// count of a billion or more stands for a leap second and is only admitted in
/// the last second of a minute.
pub open spec fn representable(secs: int, nanos: int) -> bool {
    &&& MIN_SECS <= secs <= MAX_SECS
    &&& 0 <= nanos < 2_000_000_000
    &&& nanos >= 1_000_000_000 ==> secs % 60 == 59
}

/// Whether the instant `a` comes strictly after the instant `b`, each given as
/// seconds and nanoseconds.
pub open spec fn later(a: (int, int), b: (int, int)) -> bool {
    a.0 > b.0 || (a.0 == b.0 && a.1 > b.1)
}

/// An instant in UTC: seconds since the Unix epoch and nanoseconds within the
/// second. Every value names an instant of the supported calendar.
#[derive(Debug, Clone, Copy, PartialEq, Eq)]
pub struct Timestamp {
    secs: i64,
    nanos: u32,
}

impl View for Timestamp {
    type V = (int, int);

    closed spec fn view(&self) -> (int, int) {
        (self.secs as int, self.nanos as int)
    }
}

impl Timestamp {
    #[verifier::type_invariant]
    spec fn well_formed(&self) -> bool {
        representable(self.secs as int, self.nanos as int)
    }

    /// The instant `secs` seconds and `nanos` nanoseconds after the Unix
    /// epoch, if the supported calendar holds it.
    pub fn new(secs: i64, nanos: u32) -> (res: Option<Timestamp>)
        ensures
            res is Some == representable(secs as int, nanos as int),
            res matches Some(t) ==> t@ == (secs as int, nanos as int),
    {
        if secs < MIN_SECS || secs > MAX_SECS || nanos >= 2_000_000_000 {
            return None;
        }
        if nanos >= 1_000_000_000 {
            // MIN_SECS is a whole number of minutes, so the shift keeps the
            // second within its minute.
            let shifted: i64 = secs - MIN_SECS;
            if shifted % 60 != 59 {
                return None;
            }
        }
        Some(Timestamp { secs, nanos })
    }

    /// Seconds since the Unix epoch.
    pub fn secs(&self) -> (res: i64)
        ensures
            res == self@.0,
            representable(self@.0, self@.1),
    {
        proof {
            use_type_invariant(self);
        }
        self.secs
    }

    /// Nanoseconds within the second.
    pub fn nanos(&self) -> (res: u32)
        ensures
            res == self@.1,
            representable(self@.0, self@.1),
    {
        proof {
            use_type_invariant(self);
        }
        self.nanos
    }

    /// Whether this instant comes strictly after `other`.
    pub fn is_after(&self, other: &Timestamp) -> (res: bool)
        ensures
            res == later(self@, other@),
    {
        self.secs > other.secs || (self.secs == other.secs && self.nanos > other.nanos)
    }
}

/// The bit pattern of 1.0, the largest of a double from zero to one.
pub const ONE_BITS: u64 = 0x3FF0_0000_0000_0000;

/// The bit pattern of negative zero.
pub const NEGATIVE_ZERO_BITS: u64 = 0x8000_0000_0000_0000;

/// Whether the double with this bit pattern lies from zero to one, both
/// included. The doubles from zero up to one are those whose bit pattern is
/// at most that of 1.0; negative zero equals zero and lies within as well.
/// Everything else lies outside: the numbers below zero and above one, the
/// infinities, and every NaN.
pub open spec fn within_unit(bits: u64) -> bool {
    bits <= ONE_BITS || bits == NEGATIVE_ZERO_BITS
}

/// An IEEE-754 double, held by its bit pattern together with the decimal text
/// that it is shown as. The text is carried as given and never interpreted.
#[derive(Debug, Clone, PartialEq, Eq)]
pub struct Number {
    pub bits: u64,
    pub text: String,
}

impl Number {
    /// Whether the number lies from zero to one, both included.
    pub fn is_within_unit(&self) -> (res: bool)
        ensures
            res == within_unit(self.bits),
    {
        self.bits <= ONE_BITS || self.bits == NEGATIVE_ZERO_BITS
    }
}

/// Format metadata, identity, fingerprint, optional signature and time of
/// creation.
#[derive(Debug, Clone, PartialEq, Eq)]
pub struct GlyphHeader {
    pub magic: String,
    pub version: String,
    pub id: String,
    pub hash: String,
    pub signature: Option<String>,
    pub created_at: Timestamp,
}

/// Who made the document, and when.
#[derive(Debug, Clone, PartialEq, Eq)]
pub struct Origin {
    pub creator: String,
    pub timestamp: Timestamp,
    pub signature: Option<String>,
}

/// A provision together with the views that single agents take of the label.
#[derive(Debug, Clone, PartialEq, Eq)]
pub struct Namespace {
    pub provision: String,
    pub contextual_overlays: Vec<ContextualOverlay>,
}

/// The label and trust that one agent gives the concept.
#[derive(Debug, Clone, PartialEq, Eq)]
pub struct ContextualOverlay {
    pub agent: String,
    pub label: String,
    pub truth_mode: String,
}

/// The epistemic class of the claim and the confidence placed in it.
#[derive(Debug, Clone, PartialEq, Eq)]
pub struct TruthMode {
    pub kind: String,
    pub confidence: Number,
    pub verified_by: Vec<String>,
    pub conflicts: Vec<String>,
}

/// How the concept sounds.
#[derive(Debug, Clone, PartialEq, Eq)]
pub struct Audio {
    pub file: Option<String>,
    pub phonetic: Option<String>,
}

/// How the concept looks.
#[derive(Debug, Clone, PartialEq, Eq)]
pub struct Visual {
    pub svg: Option<String>,
    pub sigil: Option<String>,
    pub style: Option<VisualStyle>,
}

/// Colour and stroke width of a drawing.
#[derive(Debug, Clone, PartialEq, Eq)]
pub struct VisualStyle {
    pub color: Option<String>,
    pub stroke: Option<Number>,
}

/// A typed link to another concept.
#[derive(Debug, Clone, PartialEq, Eq)]
pub struct Relation {
    pub kind: String,
    pub target: String,
}

/// Anchors in outside knowledge bases and sensors.
#[derive(Debug, Clone, PartialEq, Eq)]
pub struct Grounding {
    pub wikidata: Option<String>,
    pub sensors: Vec<String>,
}

/// The semantic content of a document.
#[derive(Debug, Clone, PartialEq, Eq)]
pub struct GlyphPayload {
    pub label: String,
    pub aliases: Vec<String>,
    pub classes: Vec<String>,
    pub namespace: Namespace,
    pub origin: Option<Origin>,
    pub truth_mode: TruthMode,
    pub audio: Audio,
    pub visual: Visual,
    pub relations: Vec<Relation>,
    pub grounding: Grounding,
}

/// One document: a header and a payload.
#[derive(Debug, Clone, PartialEq, Eq)]
pub struct Glyph {
    pub header: GlyphHeader,
    pub payload: GlyphPayload,
}

/// The characters of an optional string; none stands for the empty text.
pub open spec fn text_or_empty(value: Option<String>) -> Seq<char> {
    match value {
        Some(s) => s@,
        None => Seq::empty(),
    }
}

} // verus!
