use glyphos::clock::now;
use glyphos::commands::{
    choose_output, companion_file_name, failure_ends_run, glyph_file_name, parse_format,
    qr_file_name, start, OutputChoice, OutputFormat, Projection, VerificationOutcome,
};
use glyphos::error::Error;
use glyphos::model::{
    Audio, Glyph, GlyphHeader, GlyphPayload, Grounding, Namespace, Number, TruthMode, Visual,
};
use glyphos::qr::{DecodeError, EncodeError, QrFailure};
use glyphos::signature::{SignError, VerifyError};

fn sample() -> Glyph {
    Glyph {
        header: GlyphHeader {
            magic: "GLYPH".to_string(),
            version: "0.1".to_string(),
            id: "550e8400-e29b-41d4-a716-446655440000".to_string(),
            hash: "blake3:0123".to_string(),
            signature: None,
            created_at: now(),
        },
        payload: GlyphPayload {
            label: "fire".to_string(),
            aliases: vec![],
            classes: vec![],
            namespace: Namespace { provision: "glyph:test".to_string(), contextual_overlays: vec![] },
            origin: None,
            truth_mode: TruthMode {
                kind: "empirical".to_string(),
                confidence: Number { bits: 0.5f64.to_bits(), text: "0.5".to_string() },
                verified_by: vec![],
                conflicts: vec![],
            },
            audio: Audio { file: None, phonetic: None },
            visual: Visual { svg: None, sigil: None, style: None },
            relations: vec![],
            grounding: Grounding { wikidata: None, sensors: vec![] },
        },
    }
}

#[test]
fn start_succeeds() {
    assert_eq!(start(), Ok(()));
}

#[test]
fn errors_hold_a_message_and_a_source() {
    let plain = Error::new("it failed");
    assert_eq!(plain.msg, "it failed");
    assert_eq!(plain.message(), "it failed");
    assert!(plain.source().is_none());
    let chained = Error::with_source("outer", Error::new("inner"));
    assert_eq!(chained.msg, "outer");
    assert_eq!(chained.source(), Some(&Error::new("inner")));
    assert_eq!(chained.source().unwrap().message(), "inner");
    let empty = Error::default();
    assert_eq!(empty.msg, "");
    assert!(empty.source.is_none());
    assert_eq!(empty, Error::new(""));
}

#[test]
fn format_names() {
    assert_eq!(parse_format("json"), Some(OutputFormat::Json));
    assert_eq!(parse_format("json5"), Some(OutputFormat::Json5));
    assert_eq!(parse_format("yaml"), Some(OutputFormat::Yaml));
    assert_eq!(parse_format("text"), Some(OutputFormat::Text));
    assert_eq!(parse_format("JSON"), None);
    assert_eq!(parse_format("xml"), None);
    assert_eq!(parse_format(""), None);
}

#[test]
fn output_is_chosen_header_first() {
    let header = OutputChoice { projection: Projection::Header, unsupported_format: false };
    let payload = OutputChoice { projection: Projection::Payload, unsupported_format: false };
    assert_eq!(choose_output(true, false, "yaml"), header);
    assert_eq!(choose_output(true, true, "nonsense"), header);
    assert_eq!(choose_output(false, true, "text"), payload);
    assert_eq!(choose_output(false, true, "nonsense"), payload);
    assert_eq!(
        choose_output(false, false, "yaml"),
        OutputChoice { projection: Projection::Whole(OutputFormat::Yaml), unsupported_format: false }
    );
    assert_eq!(
        choose_output(false, false, "text"),
        OutputChoice { projection: Projection::Whole(OutputFormat::Text), unsupported_format: false }
    );
    assert_eq!(
        choose_output(false, false, "xml"),
        OutputChoice { projection: Projection::Whole(OutputFormat::Json), unsupported_format: true }
    );
}

#[test]
fn failed_checks_end_a_run_unless_decoding_verbosely() {
    assert!(failure_ends_run(false, false));
    assert!(failure_ends_run(false, true));
    assert!(failure_ends_run(true, false));
    assert!(!failure_ends_run(true, true));
}

#[test]
fn output_files_are_named_after_the_input() {
    assert_eq!(glyph_file_name("fire"), "fire.glyph");
    assert_eq!(qr_file_name("fire"), "fire.png");
    assert_eq!(companion_file_name("fire.glyph"), "fire.glyph.json");
    assert_eq!(companion_file_name("out/fire"), "out/fire.json");
    assert_eq!(glyph_file_name(""), ".glyph");
}

#[test]
fn three_outcomes_of_verification() {
    let seed = [3u8; 32];
    let key = ed25519_dalek::SigningKey::from_bytes(&seed).verifying_key().to_bytes();
    let mut glyph = sample();
    assert_eq!(glyph.verification_outcome(&key), Ok(VerificationOutcome::Absent));
    glyph.sign(&seed).unwrap();
    assert_eq!(glyph.verification_outcome(&key), Ok(VerificationOutcome::Valid));
    glyph.header.hash = "blake3:4567".to_string();
    assert_eq!(glyph.verification_outcome(&key), Ok(VerificationOutcome::Invalid));
    glyph.header.signature = Some("ed25519:xyz".to_string());
    assert_eq!(glyph.verification_outcome(&key), Err(VerifyError::BadEncoding));
    assert_eq!(glyph.verification_outcome(&key[..5]), Err(VerifyError::BadEncoding));
}

#[test]
fn errors_are_shown_in_words() {
    assert_eq!(SignError::InvalidKeyLength.message(), "Private key must be exactly 32 bytes");
    assert_eq!(VerifyError::BadSignatureFormat.message(), "Invalid signature format");
    assert_eq!(VerifyError::BadEncoding.message(), "Invalid signature encoding");
    assert_eq!(VerifyError::BadSignatureLength.message(), "Invalid signature length");
    assert_eq!(VerifyError::InvalidKeyLength.message(), "Invalid public key length");
    assert_eq!(VerifyError::InvalidKey.message(), "Invalid public key");
    assert_eq!(DecodeError::NoBarcodeFound.message(), "No valid QR code found in image");
    assert_eq!(DecodeError::BadEncoding.message(), "QR code does not hold base64 text");
    assert_eq!(EncodeError::Barcode(QrFailure::DataTooLong).message(), "data too long");
    assert_eq!(EncodeError::Barcode(QrFailure::InvalidVersion).message(), "invalid version");
    assert_eq!(
        EncodeError::Barcode(QrFailure::UnsupportedCharacterSet).message(),
        "unsupported character set"
    );
    assert_eq!(
        EncodeError::Barcode(QrFailure::InvalidEciDesignator).message(),
        "invalid ECI designator"
    );
    assert_eq!(EncodeError::Barcode(QrFailure::InvalidCharacter).message(), "invalid character");
    assert_eq!(EncodeError::NotDrawable.message(), "QR code rendering is not a rectangle");
    assert_eq!(EncodeError::Png.message(), "QR code image could not be written");
}
