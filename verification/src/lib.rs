//! A signature-package construction and public-key-recovery verification
//! protocol over secp256k1.
//!
//! A signer authenticates a 32-byte payload by hashing it with Keccak-256 and
//! signing the hash with deterministic ECDSA; the resulting
//! [`package::SignaturePackage`] carries the signature, the recovery id, the
//! signer's uncompressed public key and the payload itself. A verifier
//! recomputes the hash, recovers the public key from the signature and the
//! recovery id, and compares it byte for byte against the embedded key, so no
//! prior key registration or external lookup is needed.

pub mod builder;
pub mod codec;
pub mod crypto;
pub mod package;
pub mod verification;
