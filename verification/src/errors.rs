//! The error taxonomy: every verification call either succeeds or reports
//! exactly one of these reasons for rejection.  None of them is transient, so
//! nothing here is ever retried.

use vstd::prelude::*;

verus! {

/// The single reason a key load, signature verification or certificate trust
/// check was rejected.
#[derive(Clone, Copy, Debug, PartialEq, Eq)]
pub enum VerificationError {
    /// Key bytes are not valid PEM or DER SubjectPublicKeyInfo for an ECDSA
    /// key on the NIST P-256 curve.
    InvalidKeyFormat,
    /// Signature text is not valid base64.
    Base64DecodeError,
    /// Decoded signature bytes are not a valid DER-encoded ECDSA signature.
    SignatureFormatError,
    /// Cryptographic signature verification failed.
    SignatureInvalid,
    /// Certificate bytes are not valid PEM or DER X.509.
    CertificateParseError,
    /// The certificate's own signature does not verify against the supplied
    /// certificate-authority key.
    IssuerMismatch,
    /// The key-usage extension is absent, or its digital-signature bit is
    /// unset.
    MissingDigitalSignatureUsage,
    /// The extended-key-usage extension is absent, or does not include the
    /// code-signing capability.
    MissingCodeSigningUsage,
    /// The subject-alternative-name extension is absent, so no signer
    /// identity is bound to the certificate.
    MissingIdentityBinding,
    /// The current time precedes the certificate's not-before bound.
    NotYetValid,
    /// The integrated time precedes the certificate's not-before bound.
    SignedBeforeCertValid,
    /// The integrated time follows the certificate's not-after bound.
    SignedAfterCertExpired,
}

} // verus!
