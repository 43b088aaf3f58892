//! The certificate trust decision engine.
//!
//! A [`Certificate`] holds, as plain values, exactly what the trust checks
//! read from a parsed X.509 code-signing certificate: the raw to-be-signed
//! body and the issuer's signature over it, the key-usage and
//! extended-key-usage capabilities, whether a subject-alternative-name is
//! present, and the validity window as Unix-epoch seconds.  Whoever parses
//! certificate bytes (an external capability) fills this structure in.
//!
//! Trust is deliberately anchored to the transparency log's integrated time,
//! not to the clock: a validly issued certificate is treated as trusted
//! forever, and only the signing-time window is enforced against the
//! integrated time.

use vstd::prelude::*;
use crate::errors::VerificationError;
use crate::primitives::{
    der_signature_ok, ecdsa_p256_verifies, p256_verify, spki_key_ok,
};

verus! {

/// The key-usage capabilities a certificate declares, as far as the trust
/// checks read them.
pub struct KeyUsage {
    /// Whether the digital-signature bit is set.
    pub digital_signature: bool,
}

/// The extended-key-usage capabilities a certificate declares, as far as the
/// trust checks read them.
pub struct ExtendedKeyUsage {
    /// Whether the code-signing capability is included.
    pub code_signing: bool,
}

/// A parsed X.509 certificate, reduced to the plain values the trust checks
/// operate on.
pub struct Certificate {
    /// The raw DER bytes of the to-be-signed certificate body, the content
    /// the issuer signed.
    pub tbs_der: Vec<u8>,
    /// The issuer's DER-encoded ECDSA signature over the to-be-signed body.
    pub signature_der: Vec<u8>,
    /// The key-usage extension, where the certificate carries one.
    pub key_usage: Option<KeyUsage>,
    /// The extended-key-usage extension, where the certificate carries one.
    pub extended_key_usage: Option<ExtendedKeyUsage>,
    /// Whether the certificate carries a subject-alternative-name extension,
    /// binding a signer identity to it.
    pub has_subject_alternative_name: bool,
    /// Start of the validity window, in Unix-epoch seconds.
    pub not_before: i64,
    /// End of the validity window, in Unix-epoch seconds.
    pub not_after: i64,
}

/// The mathematical image of a [`Certificate`].
pub ghost struct CertificateView {
    pub tbs_der: Seq<u8>,
    pub signature_der: Seq<u8>,
    pub key_usage: Option<bool>,
    pub extended_key_usage: Option<bool>,
    pub has_subject_alternative_name: bool,
    pub not_before: int,
    pub not_after: int,
}

impl View for Certificate {
    type V = CertificateView;

    open spec fn view(&self) -> CertificateView {
        CertificateView {
            tbs_der: self.tbs_der@,
            signature_der: self.signature_der@,
            key_usage: match self.key_usage {
                Option::Some(ku) => Option::Some(ku.digital_signature),
                Option::None => Option::None,
            },
            extended_key_usage: match self.extended_key_usage {
                Option::Some(eku) => Option::Some(eku.code_signing),
                Option::None => Option::None,
            },
            has_subject_alternative_name: self.has_subject_alternative_name,
            not_before: self.not_before as int,
            not_after: self.not_after as int,
        }
    }
}

/// Whether the certificate's own signature was produced over its to-be-signed
/// body by the key in `ca_spki_der` (DER SubjectPublicKeyInfo).
pub open spec fn issuer_signature_verified(cert: CertificateView, ca_spki_der: Seq<u8>) -> bool {
    &&& spki_key_ok(ca_spki_der)
    &&& der_signature_ok(cert.signature_der)
    &&& ecdsa_p256_verifies(ca_spki_der, cert.tbs_der, cert.signature_der)
}

/// Whether the certificate declares the digital-signature key usage.
pub open spec fn declares_digital_signature(cert: CertificateView) -> bool {
    cert.key_usage matches Option::Some(digital_signature) && digital_signature
}

/// Whether the certificate declares the code-signing extended key usage.
pub open spec fn declares_code_signing(cert: CertificateView) -> bool {
    cert.extended_key_usage matches Option::Some(code_signing) && code_signing
}

/// The outcome of the key-usage checks alone.
pub open spec fn key_usages_outcome(cert: CertificateView) -> Result<(), VerificationError> {
    if !declares_digital_signature(cert) {
        Result::Err(VerificationError::MissingDigitalSignatureUsage)
    } else if !declares_code_signing(cert) {
        Result::Err(VerificationError::MissingCodeSigningUsage)
    } else {
        Result::Ok(())
    }
}

/// The outcome of the signing-window check alone: the integrated time must
/// fall within the certificate's validity window.
pub open spec fn signing_window_outcome(cert: CertificateView, integrated_time: int) -> Result<
    (),
    VerificationError,
> {
    if integrated_time < cert.not_before {
        Result::Err(VerificationError::SignedBeforeCertValid)
    } else if integrated_time > cert.not_after {
        Result::Err(VerificationError::SignedAfterCertExpired)
    } else {
        Result::Ok(())
    }
}

/// The outcome of the full ordered battery of trust checks: the first failed
/// check wins.  Note that the current time is compared only against the
/// not-before bound; no check compares it against not-after, by design.
pub open spec fn trust_outcome(
    cert: CertificateView,
    ca_spki_der: Seq<u8>,
    integrated_time: int,
    current_time: int,
) -> Result<(), VerificationError> {
    if !issuer_signature_verified(cert, ca_spki_der) {
        Result::Err(VerificationError::IssuerMismatch)
    } else if !declares_digital_signature(cert) {
        Result::Err(VerificationError::MissingDigitalSignatureUsage)
    } else if !declares_code_signing(cert) {
        Result::Err(VerificationError::MissingCodeSigningUsage)
    } else if !cert.has_subject_alternative_name {
        Result::Err(VerificationError::MissingIdentityBinding)
    } else if current_time < cert.not_before {
        Result::Err(VerificationError::NotYetValid)
    } else {
        signing_window_outcome(cert, integrated_time)
    }
}

/// Verify that the certificate's own embedded signature was produced over its
/// to-be-signed body by the claimed certificate-authority key.
pub fn verify_issuer(certificate: &Certificate, ca_issuer_public_key: &[u8]) -> (r: Result<
    (),
    VerificationError,
>)
    ensures
        r is Ok <==> issuer_signature_verified(certificate@, ca_issuer_public_key@),
        r matches Err(e) ==> e == VerificationError::IssuerMismatch,
{
    if p256_verify(
        ca_issuer_public_key,
        certificate.tbs_der.as_slice(),
        certificate.signature_der.as_slice(),
    ) {
        Ok(())
    } else {
        Err(VerificationError::IssuerMismatch)
    }
}

/// Verify that the certificate declares the digital-signature key usage and
/// the code-signing extended key usage, in that order.
pub fn verify_certificate_key_usages(certificate: &Certificate) -> (r: Result<
    (),
    VerificationError,
>)
    ensures
        r == key_usages_outcome(certificate@),
{
    let digital_signature = match &certificate.key_usage {
        Some(key_usage) => key_usage.digital_signature,
        None => false,
    };
    if !digital_signature {
        return Err(VerificationError::MissingDigitalSignatureUsage);
    }

    let code_signing = match &certificate.extended_key_usage {
        Some(extended_key_usage) => extended_key_usage.code_signing,
        None => false,
    };
    if !code_signing {
        return Err(VerificationError::MissingCodeSigningUsage);
    }

    Ok(())
}

/// Verify that the certificate carries a subject-alternative-name extension,
/// the identity binding of a code-signing certificate.
pub fn verify_certificate_has_san(certificate: &Certificate) -> (r: Result<(), VerificationError>)
    ensures
        r is Ok <==> certificate@.has_subject_alternative_name,
        r matches Err(e) ==> e == VerificationError::MissingIdentityBinding,
{
    if certificate.has_subject_alternative_name {
        Ok(())
    } else {
        Err(VerificationError::MissingIdentityBinding)
    }
}

/// Verify that the certificate cannot be used before the current time.
///
/// Deliberately, no check compares the current time against the not-after
/// bound: once validly issued, a certificate is treated as trusted forever,
/// and only the signing-time window is enforced (see
/// [`verify_certificate_expiration`]).
pub fn verify_certificate_validity(certificate: &Certificate, current_time: i64) -> (r: Result<
    (),
    VerificationError,
>)
    ensures
        r is Ok <==> current_time >= certificate@.not_before,
        r matches Err(e) ==> e == VerificationError::NotYetValid,
{
    if current_time < certificate.not_before {
        Err(VerificationError::NotYetValid)
    } else {
        Ok(())
    }
}

/// Verify that the integrated time, the transparency log's record of when
/// signing happened, falls within the certificate's validity window.
pub fn verify_certificate_expiration(certificate: &Certificate, integrated_time: i64) -> (r:
    Result<(), VerificationError>)
    ensures
        r == signing_window_outcome(certificate@, integrated_time as int),
{
    if integrated_time < certificate.not_before {
        return Err(VerificationError::SignedBeforeCertValid);
    }

    if integrated_time > certificate.not_after {
        return Err(VerificationError::SignedAfterCertExpired);
    }

    Ok(())
}

/// Ensure the given certificate can be trusted for verifying cosign
/// signatures.
///
/// The following checks are performed against the given certificate, in
/// order, and the first failure is reported:
/// * the certificate has been issued by the authority with the given
///   SubjectPublicKeyInfo,
/// * the certificate has the right set of key usages,
/// * the certificate binds a signer identity through a
///   subject-alternative-name,
/// * the certificate cannot be used before the current time,
/// * the integrated time falls within the certificate's validity window.
pub fn verify_certificate_can_be_trusted(
    certificate: &Certificate,
    ca_issuer_public_key: &[u8],
    integrated_time: i64,
    current_time: i64,
) -> (r: Result<(), VerificationError>)
    ensures
        r == trust_outcome(
            certificate@,
            ca_issuer_public_key@,
            integrated_time as int,
            current_time as int,
        ),
{
    verify_issuer(certificate, ca_issuer_public_key)?;
    verify_certificate_key_usages(certificate)?;
    verify_certificate_has_san(certificate)?;
    verify_certificate_validity(certificate, current_time)?;
    verify_certificate_expiration(certificate, integrated_time)?;

    Ok(())
}

/// The checks are order-independent in effect: the battery accepts a
/// certificate exactly when every individual check passes — the issuer
/// signature verifies against the authority key, both key usages are
/// declared, an identity is bound, the current time has reached not-before,
/// and the integrated time falls within the validity window.
pub proof fn lemma_trust_needs_every_check(
    cert: CertificateView,
    ca_spki_der: Seq<u8>,
    integrated_time: int,
    current_time: int,
)
    ensures
        trust_outcome(cert, ca_spki_der, integrated_time, current_time) is Ok <==> {
            &&& issuer_signature_verified(cert, ca_spki_der)
            &&& declares_digital_signature(cert)
            &&& declares_code_signing(cert)
            &&& cert.has_subject_alternative_name
            &&& current_time >= cert.not_before
            &&& cert.not_before <= integrated_time <= cert.not_after
        },
{
}

/// The issuer-signature check decides first, and alone decides
/// `IssuerMismatch`: the trust outcome is `IssuerMismatch` exactly when the
/// certificate's signature does not verify against the supplied authority
/// key, whatever the other fields hold.
pub proof fn lemma_issuer_check_decides_mismatch(
    cert: CertificateView,
    ca_spki_der: Seq<u8>,
    integrated_time: int,
    current_time: int,
)
    ensures
        trust_outcome(cert, ca_spki_der, integrated_time, current_time) == Result::<
            (),
            VerificationError,
        >::Err(VerificationError::IssuerMismatch) <==> !issuer_signature_verified(
            cert,
            ca_spki_der,
        ),
{
}

/// A certificate that does not declare the digital-signature key usage —
/// because the key-usage extension is absent or the bit is unset — is
/// rejected with `MissingDigitalSignatureUsage`, regardless of all its other
/// fields.
pub proof fn lemma_missing_digital_signature_rejected(
    cert: CertificateView,
    ca_spki_der: Seq<u8>,
    integrated_time: int,
    current_time: int,
)
    requires
        issuer_signature_verified(cert, ca_spki_der),
        !declares_digital_signature(cert),
    ensures
        trust_outcome(cert, ca_spki_der, integrated_time, current_time) == Result::<
            (),
            VerificationError,
        >::Err(VerificationError::MissingDigitalSignatureUsage),
{
}

/// A certificate that does not declare the code-signing extended key usage is
/// rejected with `MissingCodeSigningUsage`, regardless of its identity
/// binding and validity window.
pub proof fn lemma_missing_code_signing_rejected(
    cert: CertificateView,
    ca_spki_der: Seq<u8>,
    integrated_time: int,
    current_time: int,
)
    requires
        issuer_signature_verified(cert, ca_spki_der),
        declares_digital_signature(cert),
        !declares_code_signing(cert),
    ensures
        trust_outcome(cert, ca_spki_der, integrated_time, current_time) == Result::<
            (),
            VerificationError,
        >::Err(VerificationError::MissingCodeSigningUsage),
{
}

/// A certificate with no subject-alternative-name is rejected with
/// `MissingIdentityBinding`, regardless of its validity window.
pub proof fn lemma_missing_identity_binding_rejected(
    cert: CertificateView,
    ca_spki_der: Seq<u8>,
    integrated_time: int,
    current_time: int,
)
    requires
        issuer_signature_verified(cert, ca_spki_der),
        declares_digital_signature(cert),
        declares_code_signing(cert),
        !cert.has_subject_alternative_name,
    ensures
        trust_outcome(cert, ca_spki_der, integrated_time, current_time) == Result::<
            (),
            VerificationError,
        >::Err(VerificationError::MissingIdentityBinding),
{
}

/// For a certificate valid from `not_before` to `not_after`, the
/// signing-window check splits on the integrated time exactly three ways:
/// before the window, after the window, or inside it and passing.
pub proof fn lemma_signing_window_trichotomy(cert: CertificateView, integrated_time: int)
    requires
        cert.not_before <= cert.not_after,
    ensures
        integrated_time < cert.not_before ==> signing_window_outcome(cert, integrated_time)
            == Result::<(), VerificationError>::Err(VerificationError::SignedBeforeCertValid),
        integrated_time > cert.not_after ==> signing_window_outcome(cert, integrated_time)
            == Result::<(), VerificationError>::Err(VerificationError::SignedAfterCertExpired),
        cert.not_before <= integrated_time <= cert.not_after ==> signing_window_outcome(
            cert,
            integrated_time,
        ) == Result::<(), VerificationError>::Ok(()),
{
}

/// A certificate is never rejected purely because the current time has passed
/// its not-after bound: when every check is satisfied and the signing fell
/// inside the validity window, the certificate is trusted even at a current
/// time far beyond not-after.
pub proof fn lemma_expired_certificate_still_trusted(
    cert: CertificateView,
    ca_spki_der: Seq<u8>,
    integrated_time: int,
    current_time: int,
)
    requires
        issuer_signature_verified(cert, ca_spki_der),
        declares_digital_signature(cert),
        declares_code_signing(cert),
        cert.has_subject_alternative_name,
        cert.not_before <= integrated_time <= cert.not_after,
        current_time > cert.not_after,
    ensures
        trust_outcome(cert, ca_spki_der, integrated_time, current_time) == Result::<
            (),
            VerificationError,
        >::Ok(()),
{
}

/// The one current-time check that does exist: a certificate is rejected with
/// `NotYetValid` when the current time precedes its not-before bound.
pub proof fn lemma_not_yet_valid_rejected(
    cert: CertificateView,
    ca_spki_der: Seq<u8>,
    integrated_time: int,
    current_time: int,
)
    requires
        issuer_signature_verified(cert, ca_spki_der),
        declares_digital_signature(cert),
        declares_code_signing(cert),
        cert.has_subject_alternative_name,
        current_time < cert.not_before,
    ensures
        trust_outcome(cert, ca_spki_der, integrated_time, current_time) == Result::<
            (),
            VerificationError,
        >::Err(VerificationError::NotYetValid),
{
}

} // verus!
