//! Tests for key loading, public-key extraction and raw signature
//! verification.

use cosign_verify::crypto::{
    extract_public_key_from_pem_cert, new_verification_key,
    new_verification_key_from_public_key_der, verify_signature,
};
use cosign_verify::errors::VerificationError;

const PUBLIC_KEY: &str = r#"-----BEGIN PUBLIC KEY-----
MFkwEwYHKoZIzj0CAQYIKoZIzj0DAQcDQgAENptdY/l3nB0yqkXLBWkZWQwo6+cu
OSWS1X9vPavpiQOoTTGC0xX57OojUadxF1cdQmrsiReWg2Wn4FneJfa8xw==
-----END PUBLIC KEY-----"#;

const SIGNED_MESSAGE: &str = r#"{"critical":{"identity":{"docker-reference":"registry-testing.svc.lan/busybox"},"image":{"docker-manifest-digest":"sha256:f3cfc9d0dbf931d3db4685ec659b7ac68e2a578219da4aae65427886e649b06b"},"type":"cosign container image signature"},"optional":null}"#;

const SIGNATURE: &str = "MEUCIQD6q/COgzOyW0YH1Dk+CCYSt4uAhm3FDHUwvPI55zwnlwIgE0ZK58ZOWpZw8YVmBapJhBqCfdPekIknimuO0xH8Jh8=";

/// A PEM certificate whose embedded SubjectPublicKeyInfo is the P-256 key of
/// `PUBLIC_KEY`, so the extracted bytes can be loaded and used to verify
/// `SIGNATURE`.
const EC_CERT_PEM: &str = r#"-----BEGIN CERTIFICATE-----
MIHeMIHEoAMCAQICAhI0MAoGCCqGSM49BAMCMBgxFjAUBgNVBAMMDXNpZ3N0b3Jl
IHRlc3QwHhcNMjEwMTAxMDAwMDAwWhcNMzEwMTAxMDAwMDAwWjAYMRYwFAYDVQQD
DA1zaWdzdG9yZSB0ZXN0MFkwEwYHKoZIzj0CAQYIKoZIzj0DAQcDQgAENptdY/l3
nB0yqkXLBWkZWQwo6+cuOSWS1X9vPavpiQOoTTGC0xX57OojUadxF1cdQmrsiReW
g2Wn4FneJfa8xzAKBggqhkjOPQQDAgMJADAGAgEBAgEB
-----END CERTIFICATE-----
"#;

fn from_hex(s: &str) -> Vec<u8> {
    (0..s.len())
        .step_by(2)
        .map(|i| u8::from_str_radix(&s[i..i + 2], 16).unwrap())
        .collect()
}

#[test]
fn verify_signature_success() {
    let signature = String::from(SIGNATURE);
    let verification_key = new_verification_key(PUBLIC_KEY).unwrap();
    let msg = SIGNED_MESSAGE;

    let outcome = verify_signature(&verification_key, &signature, msg.as_bytes());
    assert!(outcome.is_ok());
}

#[test]
fn verify_signature_failure_because_wrong_msg() {
    let signature = String::from(SIGNATURE);
    let verification_key = new_verification_key(PUBLIC_KEY).unwrap();
    let msg = "hello world";

    let err = verify_signature(&verification_key, &signature, msg.as_bytes())
        .expect_err("Was expecting an error");
    let found = match err {
        VerificationError::SignatureInvalid => true,
        _ => false,
    };
    assert!(found, "Didn't get expected error, got {:?} instead", err);
}

#[test]
fn verify_signature_failure_because_wrong_signature() {
    let signature = String::from("this is a signature");
    let verification_key = new_verification_key(PUBLIC_KEY).unwrap();
    let msg = SIGNED_MESSAGE;

    let err = verify_signature(&verification_key, &signature, msg.as_bytes())
        .expect_err("Was expecting an error");
    let found = match err {
        VerificationError::Base64DecodeError => true,
        _ => false,
    };
    assert!(found, "Didn't get expected error, got {:?} instead", err);
}

#[test]
fn verify_signature_failure_because_wrong_verification_key() {
    let signature = String::from(SIGNATURE);

    let verification_key = new_verification_key(
        r#"-----BEGIN PUBLIC KEY-----
MFkwEwYHKoZIzj0CAQYIKoZIzj0DAQcDQgAETJP9cqpUQsn2ggmJniWGjHdlsHzD
JsB89BPhZYch0U0hKANx5TY+ncrm0s8bfJxxHoenAEFhwhuXeb4PqIrtoQ==
-----END PUBLIC KEY-----"#,
    )
    .unwrap();
    let msg = SIGNED_MESSAGE;

    let err = verify_signature(&verification_key, &signature, msg.as_bytes())
        .expect_err("Was expecting an error");
    let found = match err {
        VerificationError::SignatureInvalid => true,
        _ => false,
    };
    assert!(found, "Didn't get expected error, got {:?} instead", err);
}

#[test]
fn verify_signature_failure_because_base64_but_not_der() {
    // "aGVsbG8=" is valid base64 ("hello") but not a DER ECDSA signature.
    let verification_key = new_verification_key(PUBLIC_KEY).unwrap();
    let err = verify_signature(&verification_key, "aGVsbG8=", SIGNED_MESSAGE.as_bytes())
        .expect_err("Was expecting an error");
    assert_eq!(err, VerificationError::SignatureFormatError);
}

#[test]
fn new_verification_key_rejects_malformed_pem() {
    let err = new_verification_key("not a PEM public key").expect_err("Was expecting an error");
    assert_eq!(err, VerificationError::InvalidKeyFormat);
}

#[test]
fn new_verification_key_rejects_rsa_spki() {
    // A well-formed RSA SubjectPublicKeyInfo prefix is not a P-256 key.
    let err = new_verification_key_from_public_key_der(&[0x30, 0x0d, 0x06, 0x09])
        .expect_err("Was expecting an error");
    assert_eq!(err, VerificationError::InvalidKeyFormat);
}

#[test]
fn der_key_loads_and_verifies() {
    // The DER form of PUBLIC_KEY: loading it must give a key that verifies
    // the same signature.
    let spki = from_hex(
        "3059301306072a8648ce3d020106082a8648ce3d03010703420004369b5d63f9779c1d32aa45cb0569\
         19590c28ebe72e392592d57f6f3dabe98903a84d3182d315f9ecea2351a77117571d426aec891796836\
         5a7e059de25f6bcc7",
    );
    let key = new_verification_key_from_public_key_der(&spki).unwrap();
    assert!(verify_signature(&key, SIGNATURE, SIGNED_MESSAGE.as_bytes()).is_ok());
}

#[test]
fn extract_public_key_returns_embedded_spki() {
    let spki = extract_public_key_from_pem_cert(EC_CERT_PEM.as_bytes()).unwrap();
    let expected = from_hex(
        "3059301306072a8648ce3d020106082a8648ce3d03010703420004369b5d63f9779c1d32aa45cb0569\
         19590c28ebe72e392592d57f6f3dabe98903a84d3182d315f9ecea2351a77117571d426aec891796836\
         5a7e059de25f6bcc7",
    );
    assert_eq!(spki, expected);
}

#[test]
fn extracted_key_verifies_signature() {
    let spki = extract_public_key_from_pem_cert(EC_CERT_PEM.as_bytes()).unwrap();
    let key = new_verification_key_from_public_key_der(&spki).unwrap();
    assert!(verify_signature(&key, SIGNATURE, SIGNED_MESSAGE.as_bytes()).is_ok());
}

#[test]
fn fresh_key_pair_round_trip() {
    // A signature produced by a private key verifies against the matching
    // public key and the exact message; any other message is rejected as
    // cryptographically invalid.
    let signing_key = p256::ecdsa::SigningKey::from_slice(&[9u8; 32]).unwrap();
    let spki = p256::pkcs8::EncodePublicKey::to_public_key_der(signing_key.verifying_key())
        .unwrap()
        .as_bytes()
        .to_vec();
    let message = b"an arbitrary message for the round trip";
    let signature: p256::ecdsa::Signature =
        p256::ecdsa::signature::Signer::sign(&signing_key, message);
    let signature_b64 = base64::Engine::encode(
        &base64::engine::general_purpose::STANDARD,
        signature.to_der().as_bytes(),
    );

    let key = new_verification_key_from_public_key_der(&spki).unwrap();
    assert!(verify_signature(&key, &signature_b64, message).is_ok());

    let err = verify_signature(&key, &signature_b64, b"another message").unwrap_err();
    assert_eq!(err, VerificationError::SignatureInvalid);
}

#[test]
fn extract_public_key_rejects_garbage() {
    let err = extract_public_key_from_pem_cert(b"not a certificate")
        .expect_err("Was expecting an error");
    assert_eq!(err, VerificationError::CertificateParseError);
}
