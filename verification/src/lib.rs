//! Trust decisions for keyless code signing.
//!
//! This crate decides whether a container-image signature and the short-lived
//! code-signing certificate behind it should be trusted.  It offers three
//! stateless pieces: loading an ECDSA P-256 verification key from PEM or DER
//! SubjectPublicKeyInfo, verifying a base64-encoded DER ECDSA signature over a
//! byte message, and running the ordered battery of certificate trust checks
//! anchored to a transparency log's integrated timestamp rather than to
//! wall-clock expiry.

pub mod errors;
pub mod primitives;
pub mod crypto;
pub mod trust;
