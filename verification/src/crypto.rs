//! Verification keys and the raw signature-verification primitive.

use vstd::prelude::*;
use crate::errors::VerificationError;
use crate::primitives::{
    base64_decode, base64_decoded, der_signature_ok, ecdsa_p256_verifies, p256_key_der_from_pem,
    p256_signature_der_accepted, p256_spki_der_accepted, p256_verify, pem_cert_spki_der,
    pem_key_der, spki_key_ok, x509_pem_cert_spki,
};

verus! {

/// An ECDSA public key on the NIST P-256 curve, held as the DER-encoded
/// SubjectPublicKeyInfo it was loaded from.  A value of this type always
/// holds a well-formed key: the constructors reject anything else.
#[derive(Debug)]
pub struct VerificationKey {
    spki_der: Vec<u8>,
}

impl VerificationKey {
    #[verifier::type_invariant]
    spec fn well_formed(self) -> bool {
        spki_key_ok(self.spki_der@)
    }
}

impl View for VerificationKey {
    type V = Seq<u8>;

    closed spec fn view(&self) -> Seq<u8> {
        self.spki_der@
    }
}

/// Create a new verification key from the contents of a PEM-armored
/// SubjectPublicKeyInfo public key.
pub fn new_verification_key(contents: &str) -> (r: Result<VerificationKey, VerificationError>)
    ensures
        r is Ok <==> pem_key_der(contents@) is Some,
        r matches Ok(key) ==> key@ == pem_key_der(contents@)->0,
        r matches Err(e) ==> e == VerificationError::InvalidKeyFormat,
{
    match p256_key_der_from_pem(contents) {
        Some(spki_der) => Ok(VerificationKey { spki_der }),
        None => Err(VerificationError::InvalidKeyFormat),
    }
}

/// Create a new verification key from ASN.1 DER-encoded SubjectPublicKeyInfo
/// (binary format).
pub fn new_verification_key_from_public_key_der(bytes: &[u8]) -> (r: Result<
    VerificationKey,
    VerificationError,
>)
    ensures
        r is Ok <==> spki_key_ok(bytes@),
        r matches Ok(key) ==> key@ == bytes@,
        r matches Err(e) ==> e == VerificationError::InvalidKeyFormat,
{
    if p256_spki_der_accepted(bytes) {
        Ok(VerificationKey { spki_der: vstd::slice::slice_to_vec(bytes) })
    } else {
        Err(VerificationError::InvalidKeyFormat)
    }
}

/// Extract the public key stored inside of the given PEM-encoded certificate.
///
/// Returns the raw DER SubjectPublicKeyInfo bytes embedded in it.
pub fn extract_public_key_from_pem_cert(cert: &[u8]) -> (r: Result<Vec<u8>, VerificationError>)
    ensures
        r is Ok <==> pem_cert_spki_der(cert@) is Some,
        r matches Ok(spki) ==> spki@ == pem_cert_spki_der(cert@)->0,
        r matches Err(e) ==> e == VerificationError::CertificateParseError,
{
    match x509_pem_cert_spki(cert) {
        Some(spki) => Ok(spki),
        None => Err(VerificationError::CertificateParseError),
    }
}

/// The outcome of verifying the base64-encoded signature text `sig_text` over
/// the message `msg` against the key `key_der`: the first failure among
/// base64 decoding, DER signature parsing and cryptographic verification, or
/// success when all three hold.
pub open spec fn signature_verification_outcome(
    key_der: Seq<u8>,
    sig_text: Seq<char>,
    msg: Seq<u8>,
) -> Result<(), VerificationError> {
    match base64_decoded(sig_text) {
        Option::None => Result::Err(VerificationError::Base64DecodeError),
        Option::Some(sig_der) => if !der_signature_ok(sig_der) {
            Result::Err(VerificationError::SignatureFormatError)
        } else if !ecdsa_p256_verifies(key_der, msg, sig_der) {
            Result::Err(VerificationError::SignatureInvalid)
        } else {
            Result::Ok(())
        },
    }
}

/// Verify that the signature provided has actually been generated by the
/// given key when signing the provided message.
pub fn verify_signature(
    verification_key: &VerificationKey,
    signature_str: &str,
    msg: &[u8],
) -> (r: Result<(), VerificationError>)
    ensures
        r == signature_verification_outcome(verification_key@, signature_str@, msg@),
{
    proof {
        use_type_invariant(&*verification_key);
    }
    match base64_decode(signature_str) {
        None => Err(VerificationError::Base64DecodeError),
        Some(signature_raw) => {
            if !p256_signature_der_accepted(signature_raw.as_slice()) {
                Err(VerificationError::SignatureFormatError)
            } else if !p256_verify(
                verification_key.spki_der.as_slice(),
                msg,
                signature_raw.as_slice(),
            ) {
                Err(VerificationError::SignatureInvalid)
            } else {
                Ok(())
            }
        },
    }
}

} // verus!
