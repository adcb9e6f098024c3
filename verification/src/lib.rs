//! Ed25519 signing-key core: deterministic key derivation from a 32-byte
//! seed, deterministic signatures, and a DER private-key-container codec.
//!
//! Elliptic-curve arithmetic and hashing are delegated to audited outside
//! libraries through narrow trusted wrappers; everything built on top of
//! them — clamping, nonce construction, container framing — is verified.

pub mod codec;
pub mod crypto;
pub mod errors;
pub mod key;
