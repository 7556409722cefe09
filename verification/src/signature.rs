//! Detached Ed25519 signatures over the fingerprint of a document.
//!
//! What is signed is the fingerprint as written in the header, algorithm name
//! and all, not the raw digest and not the document. The document can be
//! rewritten without harm to the signature as long as the fingerprint stays.

use crate::digest::{hex_bytes, hex_decode, hex_encode, hex_text, lemma_hex_round_trip};
use crate::model::Glyph;
use crate::text::{has_prefix, strip_prefix};
use vstd::prelude::*;
use vstd::utf8::encode_utf8;

verus! {

/// The prefix that names the signature algorithm.
pub const SIGNATURE_PREFIX: &'static str = "ed25519:";

/// Why a document could not be signed.
#[derive(Debug, Clone, Copy, PartialEq, Eq)]
pub enum SignError {
    /// The private key is not 32 bytes long.
    InvalidKeyLength,
}

/// Why a signature could not be checked.
#[derive(Debug, Clone, Copy, PartialEq, Eq)]
pub enum VerifyError {
    /// The signature does not begin with the name of the algorithm.
    BadSignatureFormat,
    /// What follows the name of the algorithm is no hexadecimal text.
    BadEncoding,
    /// The signature is not 64 bytes long.
    BadSignatureLength,
    /// The public key is not 32 bytes long.
    InvalidKeyLength,
    /// The public key is 32 bytes long but names no point of the curve.
    InvalidKey,
}

/// The text that a signing error is shown as.
pub open spec fn sign_error_text(error: SignError) -> Seq<char> {
    match error {
        SignError::InvalidKeyLength => "Private key must be exactly 32 bytes"@,
    }
}

/// The text that a verification error is shown as.
pub open spec fn verify_error_text(error: VerifyError) -> Seq<char> {
    match error {
        VerifyError::BadSignatureFormat => "Invalid signature format"@,
        VerifyError::BadEncoding => "Invalid signature encoding"@,
        VerifyError::BadSignatureLength => "Invalid signature length"@,
        VerifyError::InvalidKeyLength => "Invalid public key length"@,
        VerifyError::InvalidKey => "Invalid public key"@,
    }
}

impl SignError {
    /// The text that the error is shown as.
    pub fn message(&self) -> (res: String)
        ensures
            res@ == sign_error_text(*self),
    {
        match self {
            SignError::InvalidKeyLength => String::from_str("Private key must be exactly 32 bytes"),
        }
    }
}

impl VerifyError {
    /// The text that the error is shown as.
    pub fn message(&self) -> (res: String)
        ensures
            res@ == verify_error_text(*self),
    {
        match self {
            VerifyError::BadSignatureFormat => String::from_str("Invalid signature format"),
            VerifyError::BadEncoding => String::from_str("Invalid signature encoding"),
            VerifyError::BadSignatureLength => String::from_str("Invalid signature length"),
            VerifyError::InvalidKeyLength => String::from_str("Invalid public key length"),
            VerifyError::InvalidKey => String::from_str("Invalid public key"),
        }
    }
}

/// The Ed25519 signature, 64 bytes, that the private key `seed` gives the
/// message.
pub uninterp spec fn ed25519_signature(seed: Seq<u8>, message: Seq<u8>) -> Seq<u8>;

/// The Ed25519 public key, 32 bytes, that belongs to the private key `seed`.
pub uninterp spec fn ed25519_public_key(seed: Seq<u8>) -> Seq<u8>;

/// What checking 64 bytes as a signature of a message under 32 bytes of
/// public key gives: nothing where the 32 bytes name no point of the curve,
/// and else whether the key accepts the signature.
pub uninterp spec fn ed25519_verdict(
    public_key: Seq<u8>,
    message: Seq<u8>,
    signature: Seq<u8>,
) -> Option<bool>;

/// Calls `SigningKey::from_bytes` and `Signer::sign` of `ed25519_dalek` and
/// copies out the signature and, second, the public key that the signing key
/// holds. Signing is deterministic, so both are named. Of the names it is
/// claimed that the signature is 64 and the public key 32 bytes long, and
/// that this public key accepts the signature for the message.
#[verifier::external_body]
fn sign_detached(seed: &[u8], message: &[u8]) -> (res: (Vec<u8>, Vec<u8>))
    requires
        seed@.len() == 32,
    ensures
        res.0@ == ed25519_signature(seed@, message@),
        res.0@.len() == 64,
        res.1@ == ed25519_public_key(seed@),
        res.1@.len() == 32,
        ed25519_verdict(res.1@, message@, res.0@) == Some(true),
{
    let mut key = [0u8; 32];
    key.copy_from_slice(seed);
    let key = ed25519_dalek::SigningKey::from_bytes(&key);
    let signature = ed25519_dalek::Signer::sign(&key, message);
    (signature.to_bytes().to_vec(), key.verifying_key().to_bytes().to_vec())
}

/// Calls `VerifyingKey::from_bytes` and `Verifier::verify` of `ed25519_dalek`.
/// Returns nothing where the bytes are no public key, and else whether the
/// key accepts the signature for the message. The outcome is named.
#[verifier::external_body]
fn check_detached(public_key: &[u8], message: &[u8], signature: &[u8]) -> (res: Option<bool>)
    requires
        public_key@.len() == 32,
        signature@.len() == 64,
    ensures
        res == ed25519_verdict(public_key@, message@, signature@),
{
    let mut key = [0u8; 32];
    key.copy_from_slice(public_key);
    let mut bytes = [0u8; 64];
    bytes.copy_from_slice(signature);
    let key = ed25519_dalek::VerifyingKey::from_bytes(&key).ok()?;
    let signature = ed25519_dalek::Signature::from_bytes(&bytes);
    Some(ed25519_dalek::Verifier::verify(&key, message, &signature).is_ok())
}

/// The signature text that the private key `seed` gives a fingerprint: the
/// name of the algorithm, a colon, and the signature of the fingerprint's
/// UTF-8 bytes in lower-case hexadecimal.
pub open spec fn signature_text(seed: Seq<u8>, hash: Seq<char>) -> Seq<char> {
    SIGNATURE_PREFIX@ + hex_text(ed25519_signature(seed, encode_utf8(hash)))
}

/// What checking a signature text against a fingerprint and a public key
/// gives.
pub open spec fn checked(signature: Seq<char>, hash: Seq<char>, public_key: Seq<u8>) -> Result<
    bool,
    VerifyError,
> {
    if !has_prefix(signature, SIGNATURE_PREFIX@) {
        Err(VerifyError::BadSignatureFormat)
    } else {
        match hex_bytes(signature.skip(SIGNATURE_PREFIX@.len() as int)) {
            None => Err(VerifyError::BadEncoding),
            Some(bytes) => if bytes.len() != 64 {
                Err(VerifyError::BadSignatureLength)
            } else if public_key.len() != 32 {
                Err(VerifyError::InvalidKeyLength)
            } else {
                match ed25519_verdict(public_key, encode_utf8(hash), bytes) {
                    None => Err(VerifyError::InvalidKey),
                    Some(accepted) => Ok(accepted),
                }
            },
        }
    }
}

/// What verifying a document under a public key gives. A document without a
/// signature verifies as `false`, which is no error.
pub open spec fn verification(glyph: Glyph, public_key: Seq<u8>) -> Result<bool, VerifyError> {
    match glyph.header.signature {
        None => Ok(false),
        Some(signature) => checked(signature@, glyph.header.hash@, public_key),
    }
}

/// Whether `after` is `before` with the given signature text in place of
/// whatever signature it had.
pub open spec fn resigned(before: Glyph, after: Glyph, signature: Seq<char>) -> bool {
    &&& after.payload == before.payload
    &&& after.header.magic == before.header.magic
    &&& after.header.version == before.header.version
    &&& after.header.id == before.header.id
    &&& after.header.hash == before.header.hash
    &&& after.header.created_at == before.header.created_at
    &&& after.header.signature matches Some(text) && text@ == signature
}

/// Whether two documents bear the same fingerprint and the same signature,
/// or both none.
pub open spec fn same_seal(a: Glyph, b: Glyph) -> bool {
    &&& a.header.hash@ == b.header.hash@
    &&& match (a.header.signature, b.header.signature) {
        (Some(x), Some(y)) => x@ == y@,
        (None, None) => true,
        _ => false,
    }
}

/// The signature is bound to the fingerprint, not to the document: two
/// documents that bear the same fingerprint and the same signature verify
/// alike under every key, however else they differ.
pub proof fn lemma_verification_reads_the_seal(a: Glyph, b: Glyph, public_key: Seq<u8>)
    requires
        same_seal(a, b),
    ensures
        verification(a, public_key) == verification(b, public_key),
{
}

/// A signature that was made is never malformed: checking the signature
/// text that a private key gave one fingerprint, against that fingerprint or
/// another and under any key of 32 bytes, gives what the key says of the
/// signature. Where the key rejects it, the result is `Ok(false)`, not an
/// error; the one error left is a key that names no point of the curve.
pub proof fn lemma_signature_text_checks(
    seed: Seq<u8>,
    signed: Seq<char>,
    hash: Seq<char>,
    public_key: Seq<u8>,
)
    requires
        ed25519_signature(seed, encode_utf8(signed)).len() == 64,
        public_key.len() == 32,
    ensures
        checked(signature_text(seed, signed), hash, public_key) == match ed25519_verdict(
            public_key,
            encode_utf8(hash),
            ed25519_signature(seed, encode_utf8(signed)),
        ) {
            Some(accepted) => Ok::<bool, VerifyError>(accepted),
            None => Err::<bool, VerifyError>(VerifyError::InvalidKey),
        },
{
    let bytes = ed25519_signature(seed, encode_utf8(signed));
    let text = signature_text(seed, signed);
    let k = SIGNATURE_PREFIX@.len() as int;
    lemma_hex_round_trip(bytes);
    assert(text.take(k) =~= SIGNATURE_PREFIX@);
    assert(text.skip(k) =~= hex_text(bytes));
}

impl Glyph {
    /// Signs the fingerprint in the header with the private key and writes
    /// the signature into the header.
    ///
    /// Fails with `InvalidKeyLength`, and leaves the document as it is, where
    /// the key is not 32 bytes long. Else only the signature changes, and the
    /// signed document verifies under the public key that belongs to the
    /// private key.
    pub fn sign(&mut self, private_key: &[u8]) -> (res: Result<(), SignError>)
        ensures
            res is Ok == (private_key@.len() == 32),
            res is Err ==> *final(self) == *old(self),
            res is Ok ==> resigned(
                *old(self),
                *final(self),
                signature_text(private_key@, old(self).header.hash@),
            ),
            res is Ok ==> verification(*final(self), ed25519_public_key(private_key@)) == Ok::<
                bool,
                VerifyError,
            >(true),
    {
        if private_key.len() != 32 {
            return Err(SignError::InvalidKeyLength);
        }
        let signed = sign_detached(private_key, self.header.hash.as_str().as_bytes());
        let mut text = String::from_str(SIGNATURE_PREFIX);
        text.append(hex_encode(signed.0.as_slice()).as_str());
        proof {
            lemma_signature_text_checks(
                private_key@,
                self.header.hash@,
                self.header.hash@,
                ed25519_public_key(private_key@),
            );
        }
        self.header.signature = Some(text);
        Ok(())
    }

    /// Checks the signature in the header against the fingerprint in the
    /// header under the public key.
    ///
    /// A document without a signature gives `Ok(false)`. A signature that is
    /// malformed gives an error: `BadSignatureFormat` where the name of the
    /// algorithm is missing, `BadEncoding` where the rest is no hexadecimal
    /// text, `BadSignatureLength` where it is not 64 bytes. A public key of
    /// another length than 32 bytes gives `InvalidKeyLength`, one that names
    /// no point of the curve `InvalidKey`. Else the result is whether the
    /// key accepts the signature.
    pub fn verify_signature(&self, public_key: &[u8]) -> (res: Result<bool, VerifyError>)
        ensures
            res == verification(*self, public_key@),
    {
        let signature = match &self.header.signature {
            Some(signature) => signature,
            None => {
                return Ok(false);
            },
        };
        let digits = match strip_prefix(signature.as_str(), SIGNATURE_PREFIX) {
            Some(digits) => digits,
            None => {
                return Err(VerifyError::BadSignatureFormat);
            },
        };
        let bytes = match hex_decode(digits) {
            Some(bytes) => bytes,
            None => {
                return Err(VerifyError::BadEncoding);
            },
        };
        if bytes.len() != 64 {
            return Err(VerifyError::BadSignatureLength);
        }
        if public_key.len() != 32 {
            return Err(VerifyError::InvalidKeyLength);
        }
        match check_detached(public_key, self.header.hash.as_str().as_bytes(), bytes.as_slice()) {
            Some(accepted) => Ok(accepted),
            None => Err(VerifyError::InvalidKey),
        }
    }
}

} // verus!
