use glyphos::model::{
    Audio, Glyph, GlyphPayload, Grounding, Namespace, Number, Origin, Relation, Timestamp,
    TruthMode, Visual, VisualStyle,
};

fn number(value: f64) -> Number {
    Number { bits: value.to_bits(), text: value.to_string() }
}

fn fire() -> GlyphPayload {
    GlyphPayload {
        label: "fire".to_string(),
        aliases: vec![],
        classes: vec!["element".to_string()],
        namespace: Namespace { provision: "glyph:test".to_string(), contextual_overlays: vec![] },
        origin: None,
        truth_mode: TruthMode {
            kind: "empirical".to_string(),
            confidence: number(0.95),
            verified_by: vec![],
            conflicts: vec![],
        },
        audio: Audio { file: None, phonetic: None },
        visual: Visual { svg: None, sigil: None, style: None },
        relations: vec![],
        grounding: Grounding { wikidata: Some("Q3".to_string()), sensors: vec![] },
    }
}

fn blake3_of(text: &str) -> String {
    format!("blake3:{}", blake3::hash(text.as_bytes()).to_hex())
}

#[test]
fn fingerprint_of_fire() {
    let expected = blake3_of("fire|element|empirical|Q3");
    assert_eq!(Glyph::compute_fingerprint(&fire()), expected);
    assert_eq!(expected.len(), 7 + 64);
    let mut with_alias = fire();
    with_alias.aliases = vec!["flame".to_string()];
    assert_eq!(Glyph::compute_fingerprint(&with_alias), expected);
}

#[test]
fn semantic_content_joins_the_identity_claims() {
    assert_eq!(Glyph::extract_semantic_content(&fire()), "fire|element|empirical|Q3");
    let mut payload = fire();
    payload.classes = vec!["element".to_string(), "plasma".to_string(), "hot".to_string()];
    payload.grounding.wikidata = None;
    assert_eq!(Glyph::extract_semantic_content(&payload), "fire|element,plasma,hot|empirical|");
    payload.classes = vec![];
    payload.label = "f\u{fc}r".to_string();
    assert_eq!(Glyph::extract_semantic_content(&payload), "f\u{fc}r||empirical|");
}

#[test]
fn hash_of_known_text() {
    assert_eq!(
        Glyph::compute_hash(""),
        "blake3:af1349b9f5f9a1a6a0404dea36dcc9499bcb25c9adc112b7cc9a93cae41f3262"
    );
    assert_eq!(Glyph::compute_hash("f\u{fc}r"), blake3_of("f\u{fc}r"));
    assert_ne!(Glyph::compute_hash("a"), Glyph::compute_hash("b"));
}

#[test]
fn fingerprint_ignores_what_is_no_identity_claim() {
    let expected = Glyph::compute_fingerprint(&fire());
    let mut other = fire();
    other.aliases = vec!["flame".to_string(), "blaze".to_string()];
    other.relations = vec![Relation { kind: "is_a".to_string(), target: "glyph:element".to_string() }];
    other.audio = Audio { file: Some("fire.ogg".to_string()), phonetic: Some("faI@".to_string()) };
    other.visual = Visual {
        svg: Some("<svg/>".to_string()),
        sigil: Some("F".to_string()),
        style: Some(VisualStyle { color: Some("red".to_string()), stroke: Some(number(1.5)) }),
    };
    other.origin = Some(Origin {
        creator: "agent:test".to_string(),
        timestamp: Timestamp::new(1_700_000_000, 0).unwrap(),
        signature: None,
    });
    other.namespace.provision = "glyph:other".to_string();
    other.truth_mode.confidence = number(0.1);
    other.truth_mode.verified_by = vec!["agent:a".to_string()];
    other.grounding.sensors = vec!["thermal".to_string()];
    assert_eq!(Glyph::compute_fingerprint(&other), expected);
}

#[test]
fn fingerprint_follows_each_identity_claim() {
    let expected = Glyph::compute_fingerprint(&fire());
    let mut other = fire();
    other.label = "water".to_string();
    assert_ne!(Glyph::compute_fingerprint(&other), expected);
    let mut other = fire();
    other.classes.push("plasma".to_string());
    assert_ne!(Glyph::compute_fingerprint(&other), expected);
    let mut other = fire();
    other.truth_mode.kind = "mythic".to_string();
    assert_ne!(Glyph::compute_fingerprint(&other), expected);
    let mut other = fire();
    other.grounding.wikidata = Some("Q4".to_string());
    assert_ne!(Glyph::compute_fingerprint(&other), expected);
}

#[test]
fn missing_anchor_hashes_as_empty_anchor() {
    let mut absent = fire();
    absent.grounding.wikidata = None;
    let mut empty = fire();
    empty.grounding.wikidata = Some(String::new());
    assert_eq!(Glyph::compute_fingerprint(&absent), Glyph::compute_fingerprint(&empty));
    assert_eq!(Glyph::compute_fingerprint(&absent), blake3_of("fire|element|empirical|"));
}

#[test]
fn test_glyph_creation() {
    let payload = GlyphPayload {
        label: "test".to_string(),
        aliases: vec!["test_alias".to_string()],
        classes: vec!["test_class".to_string()],
        namespace: Namespace { provision: "glyph:test".to_string(), contextual_overlays: vec![] },
        origin: None,
        truth_mode: TruthMode {
            kind: "empirical".to_string(),
            confidence: number(0.95),
            verified_by: vec!["agent:test".to_string()],
            conflicts: vec![],
        },
        audio: Audio { file: None, phonetic: None },
        visual: Visual { svg: None, sigil: None, style: None },
        relations: vec![],
        grounding: Grounding { wikidata: None, sensors: vec![] },
    };
    let header = Glyph::generate_header(&payload);
    let glyph = Glyph { header, payload };
    assert_eq!(glyph.header.magic, "GLYPH");
    assert_eq!(glyph.payload.label, "test");
}

#[test]
fn generated_header_is_complete() {
    let payload = fire();
    let header = Glyph::generate_header(&payload);
    assert_eq!(header.magic, "GLYPH");
    assert_eq!(header.version, "0.1");
    assert_eq!(header.hash, blake3_of("fire|element|empirical|Q3"));
    assert_eq!(header.signature, None);
    assert_eq!(header.id.len(), 36);
    let id = uuid::Uuid::parse_str(&header.id).unwrap();
    assert_eq!(id.get_version_num(), 4);
    let glyph = Glyph { header, payload };
    assert_eq!(glyph.validate(), Ok(()));
}

#[test]
fn identifier_is_not_derived_from_content() {
    let payload = fire();
    let one = Glyph::generate_header(&payload);
    let two = Glyph::generate_header(&payload);
    assert_ne!(one.id, two.id);
    assert_eq!(one.hash, two.hash);
}

#[test]
fn fresh_identifier_leaves_the_rest() {
    let payload = fire();
    let header = Glyph::generate_header(&payload);
    let mut glyph = Glyph { header, payload };
    let before = glyph.clone();
    glyph.regenerate_id();
    assert_ne!(glyph.header.id, before.header.id);
    assert!(uuid::Uuid::parse_str(&glyph.header.id).is_ok());
    assert_eq!(glyph.header.hash, before.header.hash);
    assert_eq!(glyph.header.created_at, before.header.created_at);
    assert_eq!(glyph.header.signature, before.header.signature);
    assert_eq!(glyph.payload, before.payload);
    assert_eq!(glyph.validate(), Ok(()));
}

#[test]
fn document_of_a_sound_payload_is_valid() {
    let glyph = Glyph::from_payload(fire());
    assert_eq!(glyph.payload, fire());
    assert_eq!(glyph.header.magic, "GLYPH");
    assert_eq!(glyph.header.version, "0.1");
    assert_eq!(glyph.header.hash, blake3_of("fire|element|empirical|Q3"));
    assert_eq!(glyph.header.signature, None);
    assert_eq!(glyph.validate(), Ok(()));
    let later = Timestamp::new(glyph.header.created_at.secs() + 1, 0).unwrap();
    assert_eq!(glyph.validate_at(&later), Ok(()));
}

#[test]
fn document_of_an_unsound_payload_breaks_the_payload_rules_only() {
    let mut payload = fire();
    payload.label = String::new();
    payload.relations = vec![Relation { kind: "is_a".to_string(), target: String::new() }];
    let glyph = Glyph::from_payload(payload);
    assert_eq!(
        glyph.validate(),
        Err(vec!["Label cannot be empty".to_string(), "Relation target cannot be empty".to_string()])
    );
}

#[test]
fn header_under_a_given_identifier_at_a_given_instant() {
    let payload = fire();
    let at = Timestamp::new(1_704_110_400, 250).unwrap();
    let header = Glyph::header_at(&payload, "550e8400-e29b-41d4-a716-446655440000".to_string(), at);
    assert_eq!(header.magic, "GLYPH");
    assert_eq!(header.version, "0.1");
    assert_eq!(header.id, "550e8400-e29b-41d4-a716-446655440000");
    assert_eq!(header.hash, blake3_of("fire|element|empirical|Q3"));
    assert_eq!(header.signature, None);
    assert_eq!(header.created_at, at);
    let other = Glyph::header_at(&payload, "not checked here".to_string(), Timestamp::new(0, 0).unwrap());
    assert_eq!(other.id, "not checked here");
    assert_eq!(other.created_at, Timestamp::new(0, 0).unwrap());
}

#[test]
fn generated_header_is_stamped_with_the_present() {
    let before = glyphos::clock::now();
    let header = Glyph::generate_header(&fire());
    let after = glyphos::clock::now();
    assert!(!before.is_after(&header.created_at));
    assert!(!header.created_at.is_after(&after));
}

#[test]
fn fingerprints_have_seventy_one_characters() {
    for text in ["", "a", "fire|element|empirical|Q3", "f\u{fc}r", "a much longer text that is hashed all the same"] {
        let hash = Glyph::compute_hash(text);
        assert_eq!(hash.chars().count(), 71, "{text}");
        assert!(hash.starts_with("blake3:"));
        assert!(hash[7..].chars().all(|c| c.is_ascii_digit() || ('a'..='f').contains(&c)));
    }
    assert_eq!(Glyph::compute_fingerprint(&fire()).len(), 71);
}
