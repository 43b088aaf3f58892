//! The trusted base: named results and thin wrappers around the outside
//! cryptographic and parsing capabilities.
//!
//! Every result here is a pure function of the wrapper's byte or text
//! arguments, so each gets an uninterpreted name that the rest of the crate's
//! contracts are stated over.  Nothing in this module is verified; everything
//! else in the crate is proved against these contracts.

use vstd::prelude::*;
use base64::Engine;
use p256::ecdsa::signature::Verifier;
use p256::ecdsa::{Signature, VerifyingKey};
use p256::pkcs8::{DecodePublicKey, EncodePublicKey};

verus! {

/// Whether `der` is DER-encoded SubjectPublicKeyInfo holding a valid ECDSA
/// public key on the NIST P-256 curve.
pub uninterp spec fn spki_key_ok(der: Seq<u8>) -> bool;

/// The SubjectPublicKeyInfo DER encoding of the P-256 public key held in the
/// PEM text, or `None` where the text is not PEM-armored SubjectPublicKeyInfo
/// for such a key.
pub uninterp spec fn pem_key_der(pem: Seq<char>) -> Option<Seq<u8>>;

/// Whether `der` is a well-formed DER-encoded ECDSA signature.
pub uninterp spec fn der_signature_ok(der: Seq<u8>) -> bool;

/// Whether the DER-encoded ECDSA signature `sig_der` is a valid P-256
/// signature by the key `key_der` (DER SubjectPublicKeyInfo) over the SHA-256
/// digest of `msg`.
pub uninterp spec fn ecdsa_p256_verifies(key_der: Seq<u8>, msg: Seq<u8>, sig_der: Seq<u8>) -> bool;

/// The bytes encoded by the base64 text `s`, or `None` where `s` is not valid
/// standard-alphabet base64.
pub uninterp spec fn base64_decoded(s: Seq<char>) -> Option<Seq<u8>>;

/// The raw SubjectPublicKeyInfo bytes embedded in the PEM-encoded X.509
/// certificate `pem`, or `None` where `pem` is not a well-formed PEM-armored
/// certificate.
pub uninterp spec fn pem_cert_spki_der(pem: Seq<u8>) -> Option<Seq<u8>>;

/// Relies on base64's standard-alphabet engine: every well-formed base64 text
/// decodes to its byte content, and anything else is refused.
#[verifier::external_body]
pub(crate) fn base64_decode(s: &str) -> (r: Option<Vec<u8>>)
    ensures
        r is Some <==> base64_decoded(s@) is Some,
        r is Some ==> r->0@ == base64_decoded(s@)->0,
{
    base64::engine::general_purpose::STANDARD.decode(s).ok()
}

/// Relies on p256's `VerifyingKey::from_public_key_der`: it accepts exactly
/// the DER SubjectPublicKeyInfo encodings of valid P-256 public keys.
#[verifier::external_body]
pub(crate) fn p256_spki_der_accepted(der: &[u8]) -> (r: bool)
    ensures
        r == spki_key_ok(der@),
{
    VerifyingKey::from_public_key_der(der).is_ok()
}

/// Relies on p256's `VerifyingKey::from_public_key_pem` to read the key and
/// `to_public_key_der` to re-encode it: a key read from PEM round-trips
/// through its own DER encoding.
#[verifier::external_body]
pub(crate) fn p256_key_der_from_pem(pem: &str) -> (r: Option<Vec<u8>>)
    ensures
        r is Some <==> pem_key_der(pem@) is Some,
        r is Some ==> r->0@ == pem_key_der(pem@)->0 && spki_key_ok(pem_key_der(pem@)->0),
{
    match VerifyingKey::from_public_key_pem(pem) {
        Ok(key) => match key.to_public_key_der() {
            Ok(doc) => Some(doc.as_bytes().to_vec()),
            Err(_) => None,
        },
        Err(_) => None,
    }
}

/// Relies on ecdsa's `Signature::from_der`: it accepts exactly the
/// well-formed DER-encoded ECDSA signatures.
#[verifier::external_body]
pub(crate) fn p256_signature_der_accepted(der: &[u8]) -> (r: bool)
    ensures
        r == der_signature_ok(der@),
{
    Signature::from_der(der).is_ok()
}

/// Relies on ecdsa's `VerifyingKey::verify`, which checks a P-256 signature
/// over the SHA-256 digest of the message; verification is a deterministic
/// function of key, message and signature bytes alone.
#[verifier::external_body]
pub(crate) fn p256_verify(key_der: &[u8], msg: &[u8], sig_der: &[u8]) -> (r: bool)
    ensures
        r == (spki_key_ok(key_der@) && der_signature_ok(sig_der@)
            && ecdsa_p256_verifies(key_der@, msg@, sig_der@)),
{
    match (VerifyingKey::from_public_key_der(key_der), Signature::from_der(sig_der)) {
        (Ok(key), Ok(sig)) => key.verify(msg, &sig).is_ok(),
        _ => false,
    }
}

/// Relies on x509-parser's `parse_x509_pem` and `parse_x509_certificate`:
/// hands back the raw SubjectPublicKeyInfo bytes embedded in the certificate.
#[verifier::external_body]
pub(crate) fn x509_pem_cert_spki(cert: &[u8]) -> (r: Option<Vec<u8>>)
    ensures
        r is Some <==> pem_cert_spki_der(cert@) is Some,
        r is Some ==> r->0@ == pem_cert_spki_der(cert@)->0,
{
    let (_, pem) = x509_parser::pem::parse_x509_pem(cert).ok()?;
    let (_, x509) = x509_parser::parse_x509_certificate(&pem.contents).ok()?;
    Some(x509.public_key().raw.to_vec())
}

} // verus!
