//! The decisions of the command layer: what to write, where to write it, and
//! when a failed check ends a run. Reading and writing files, printing and
//! leaving the process are the caller's part.

use crate::error::Error;
use crate::model::Glyph;
use crate::signature::{verification, VerifyError};
use crate::text::same_text;
use vstd::prelude::*;

verus! {

/// The forms that a decoded document can be written in.
#[derive(Debug, Clone, Copy, PartialEq, Eq)]
pub enum OutputFormat {
    Json,
    Json5,
    Yaml,
    Text,
}

/// The part of a document that is written, and the form it is written in.
#[derive(Debug, Clone, Copy, PartialEq, Eq)]
pub enum Projection {
    /// The header alone, as indented JSON.
    Header,
    /// The payload alone, as indented JSON.
    Payload,
    /// The whole document in the given form.
    Whole(OutputFormat),
}

/// What a decoding run writes, and whether the format that was asked for was
/// unknown and JSON took its place.
#[derive(Debug, Clone, Copy, PartialEq, Eq)]
pub struct OutputChoice {
    pub projection: Projection,
    pub unsupported_format: bool,
}

/// The three outcomes of checking a signature.
#[derive(Debug, Clone, Copy, PartialEq, Eq)]
pub enum VerificationOutcome {
    /// The signature is there and the key accepts it.
    Valid,
    /// The signature is there and the key rejects it.
    Invalid,
    /// There is no signature to check.
    Absent,
}

/// The format that a name stands for.
pub open spec fn format_named(name: Seq<char>) -> Option<OutputFormat> {
    if name == "json"@ {
        Some(OutputFormat::Json)
    } else if name == "json5"@ {
        Some(OutputFormat::Json5)
    } else if name == "yaml"@ {
        Some(OutputFormat::Yaml)
    } else if name == "text"@ {
        Some(OutputFormat::Text)
    } else {
        None
    }
}

/// What is written: the header alone where that is asked for, else the
/// payload alone where that is asked for, else the whole document in the
/// format that was named, or in JSON where the name is unknown.
pub open spec fn chosen_output(header_only: bool, payload_only: bool, format: Seq<char>) -> OutputChoice {
    if header_only {
        OutputChoice { projection: Projection::Header, unsupported_format: false }
    } else if payload_only {
        OutputChoice { projection: Projection::Payload, unsupported_format: false }
    } else {
        match format_named(format) {
            Some(known) => OutputChoice {
                projection: Projection::Whole(known),
                unsupported_format: false,
            },
            None => OutputChoice {
                projection: Projection::Whole(OutputFormat::Json),
                unsupported_format: true,
            },
        }
    }
}

/// The outcome of a verification that gave no error: absent where the
/// document has no signature, else valid or invalid as the key decided.
pub open spec fn outcome_of(glyph: Glyph, accepted: bool) -> VerificationOutcome {
    if glyph.header.signature is None {
        VerificationOutcome::Absent
    } else if accepted {
        VerificationOutcome::Valid
    } else {
        VerificationOutcome::Invalid
    }
}

/// A missing signature is no failed check: a document without a signature
/// verifies as `false` under every key without an error, and its outcome is
/// `Absent`, which no document with a signature ever has.
pub proof fn lemma_absent_is_told_from_invalid(glyph: Glyph, public_key: Seq<u8>)
    ensures
        glyph.header.signature is None ==> verification(glyph, public_key) == Ok::<
            bool,
            VerifyError,
        >(false),
        glyph.header.signature is None ==> outcome_of(glyph, false) == VerificationOutcome::Absent,
        glyph.header.signature is Some ==> outcome_of(glyph, false) == VerificationOutcome::Invalid,
        glyph.header.signature is Some ==> outcome_of(glyph, true) == VerificationOutcome::Valid,
{
}

/// Does nothing, and succeeds.
pub fn start() -> (res: Result<(), Error>)
    ensures
        res is Ok,
{
    Ok(())
}

/// The format that a name stands for, if it stands for one.
pub fn parse_format(name: &str) -> (res: Option<OutputFormat>)
    ensures
        res == format_named(name@),
{
    if same_text(name, "json") {
        Some(OutputFormat::Json)
    } else if same_text(name, "json5") {
        Some(OutputFormat::Json5)
    } else if same_text(name, "yaml") {
        Some(OutputFormat::Yaml)
    } else if same_text(name, "text") {
        Some(OutputFormat::Text)
    } else {
        None
    }
}

/// What a decoding run writes.
pub fn choose_output(header_only: bool, payload_only: bool, format: &str) -> (res: OutputChoice)
    ensures
        res == chosen_output(header_only, payload_only, format@),
{
    if header_only {
        OutputChoice { projection: Projection::Header, unsupported_format: false }
    } else if payload_only {
        OutputChoice { projection: Projection::Payload, unsupported_format: false }
    } else {
        match parse_format(format) {
            Some(known) => OutputChoice {
                projection: Projection::Whole(known),
                unsupported_format: false,
            },
            None => OutputChoice {
                projection: Projection::Whole(OutputFormat::Json),
                unsupported_format: true,
            },
        }
    }
}

/// Whether a failed check ends the run. While encoding it always does; while
/// decoding it does unless the run is verbose.
pub fn failure_ends_run(decoding: bool, verbose: bool) -> (res: bool)
    ensures
        res == !(decoding && verbose),
{
    !(decoding && verbose)
}

/// The name of the file that an encoded document goes to when none is given:
/// the stem of the input file's name with `.glyph` behind it.
pub fn glyph_file_name(stem: &str) -> (res: String)
    ensures
        res@ == stem@ + ".glyph"@,
{
    let mut name = String::from_str(stem);
    name.append(".glyph");
    name
}

/// The name of the file that a QR image goes to when none is given: the stem
/// of the input file's name with `.png` behind it.
pub fn qr_file_name(stem: &str) -> (res: String)
    ensures
        res@ == stem@ + ".png"@,
{
    let mut name = String::from_str(stem);
    name.append(".png");
    name
}

/// The name of the JSON file that goes with every encoded document: the name
/// of the encoded file with `.json` behind it.
pub fn companion_file_name(output: &str) -> (res: String)
    ensures
        res@ == output@ + ".json"@,
{
    let mut name = String::from_str(output);
    name.append(".json");
    name
}

impl Glyph {
    /// Checks the signature as `verify_signature` does and tells a missing
    /// signature from a rejected one.
    pub fn verification_outcome(&self, public_key: &[u8]) -> (res: Result<
        VerificationOutcome,
        VerifyError,
    >)
        ensures
            match verification(*self, public_key@) {
                Ok(accepted) => res == Ok::<VerificationOutcome, VerifyError>(
                    outcome_of(*self, accepted),
                ),
                Err(error) => res == Err::<VerificationOutcome, VerifyError>(error),
            },
    {
        match self.verify_signature(public_key) {
            Ok(accepted) => {
                if self.header.signature.is_none() {
                    Ok(VerificationOutcome::Absent)
                } else if accepted {
                    Ok(VerificationOutcome::Valid)
                } else {
                    Ok(VerificationOutcome::Invalid)
                }
            },
            Err(error) => Err(error),
        }
    }
}

} // verus!
