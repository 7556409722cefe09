//! Glyph documents: a labelled concept with provenance, confidence, relations
//! and media references, together with its semantic fingerprint, detached
//! signature, validation rules, text projections and QR transport.

pub mod armor;
pub mod clock;
pub mod commands;
pub mod creation;
pub mod digest;
pub mod error;
pub mod fingerprint;
pub mod ident;
pub mod model;
pub mod qr;
pub mod report;
pub mod signature;
pub mod text;
pub mod validate;
