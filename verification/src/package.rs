//! The shared data model: the authentication unit, the instruction envelope
//! around it, and the error kinds of both sides of the protocol.

use vstd::prelude::*;

verus! {

/// The self-contained, publicly verifiable authentication unit.
///
/// It is immutable once built and carries everything a verifier needs:
/// the fixed-width ECDSA signature, the recovery id selecting the candidate
/// public key, the signer's uncompressed public key, and the raw payload.
#[derive(Clone, Copy)]
#[verifier::ext_equal]
pub struct SignaturePackage {
    /// ECDSA signature over secp256k1: the scalars `r` and `s`, 32 bytes
    /// each, big-endian, concatenated.
    pub verifier_signature: [u8; 64],
    /// Selects which of the at most four candidate public keys the recovery
    /// algorithm must return; only the values 0 through 3 are valid.
    pub recovery_id: u8,
    /// Uncompressed elliptic-curve point: one prefix byte marking
    /// "uncompressed" followed by the X and Y coordinates, 32 bytes each.
    /// The prefix is informational only; verification compares the
    /// coordinates alone.
    pub public_key: [u8; 65],
    /// The raw payload that was authenticated.
    pub data: [u8; 32],
}

/// The instruction envelope the verifying service consumes: a message-kind
/// tag followed by the package it encloses.
#[derive(Clone, Copy)]
#[verifier::ext_equal]
pub enum ProgramInstruction {
    VerifySig(SignaturePackage),
}

/// The error kinds of the protocol. Each is terminal for the single call
/// that returns it; none is ever swallowed or retried inside the core.
#[derive(Clone, Copy, Debug, PartialEq, Eq, Structural)]
pub enum PackageError {
    /// The private scalar is zero or at least the group order; builder-side.
    InvalidPrivateKey,
    /// Decoding failed on ill-formed bytes; verifier-side.
    MalformedPackage,
    /// The signature scalars are out of range, the recovery id is out of
    /// bounds, or no curve point fits them; verifier-side.
    MalformedSignature,
    /// The recovered public key does not match the embedded one; the
    /// expected outcome for tampered or forged packages.
    AuthenticationFailure,
}

} // verus!
