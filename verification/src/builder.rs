//! The package builder: hash the payload, sign the hash deterministically,
//! and emit the self-contained package.

use vstd::prelude::*;

use crate::crypto::{
    derive_public_key, ecdsa_sign_of, is_valid_secret_key, keccak256, keccak256_of,
    public_key_of, secret_key_in_range, sign_hash,
};
use crate::package::{PackageError, SignaturePackage};
use crate::verification::verify_spec;

verus! {

/// The package that signing `payload` under `key` must produce: every field
/// is a function of the two inputs alone, so building is deterministic.
pub open spec fn is_built_from(pkg: SignaturePackage, payload: Seq<u8>, key: Seq<u8>) -> bool {
    &&& pkg.verifier_signature@ == ecdsa_sign_of(keccak256_of(payload), key).0
    &&& pkg.recovery_id == ecdsa_sign_of(keccak256_of(payload), key).1
    &&& pkg.public_key@ == public_key_of(key)
    &&& pkg.data@ == payload
}

/// Build a signature package: compute `Keccak256(message_data)`, derive the
/// uncompressed public key, sign the hash with deterministic ECDSA, and emit
/// the signature, the recovery id, the public key and the payload.
///
/// Succeeds exactly on the private scalars in `[1, order - 1]`; any other
/// scalar is rejected as an invalid private key. The result is pinned to
/// [`is_built_from`], a function of the inputs alone, and every package built
/// here passes verification.
pub fn create_and_sign_package(message_data: [u8; 32], signer_secret_key: &[u8; 32]) -> (r: Result<
    SignaturePackage,
    PackageError,
>)
    ensures
        (r is Ok) == is_valid_secret_key(signer_secret_key@),
        r matches Ok(pkg) ==> is_built_from(pkg, message_data@, signer_secret_key@),
        r matches Ok(pkg) ==> verify_spec(pkg) == Ok::<(), PackageError>(()),
        r is Err ==> r->Err_0 == PackageError::InvalidPrivateKey,
{
    if !secret_key_in_range(signer_secret_key) {
        return Err(PackageError::InvalidPrivateKey);
    }
    let message_hash = keccak256(message_data.as_slice());
    let public_key = derive_public_key(signer_secret_key);
    let (verifier_signature, recovery_id) = sign_hash(&message_hash, signer_secret_key);
    let package = SignaturePackage { verifier_signature, recovery_id, public_key, data: message_data };
    Ok(package)
}

/// The package embeds the public key of the given private key.
pub open spec fn carries_key_of(pkg: SignaturePackage, key: Seq<u8>) -> bool {
    pkg.public_key@ == public_key_of(key)
}

/// Two private keys whose public points have the same coordinate encoding.
/// Distinct valid keys never do; verification compares exactly these bytes.
pub open spec fn key_coordinates_agree(key_a: Seq<u8>, key_b: Seq<u8>) -> bool {
    public_key_of(key_a).subrange(1, 65) == public_key_of(key_b).subrange(1, 65)
}

/// Cross-key rejection: a package built with one key, with its `public_key`
/// field replaced by another key's encoding (one with different coordinate
/// bytes), fails authentication. The premises on the genuine package are
/// exactly what [`create_and_sign_package`] ensures of everything it builds.
pub proof fn lemma_cross_key_rejected(
    genuine: SignaturePackage,
    forged: SignaturePackage,
    payload: Seq<u8>,
    key_a: Seq<u8>,
    key_b: Seq<u8>,
)
    requires
        is_built_from(genuine, payload, key_a),
        verify_spec(genuine) == Ok::<(), PackageError>(()),
        forged.verifier_signature@ == genuine.verifier_signature@,
        forged.recovery_id == genuine.recovery_id,
        forged.data@ == payload,
        carries_key_of(forged, key_b),
        !key_coordinates_agree(key_a, key_b),
    ensures
        verify_spec(forged) == Err::<(), PackageError>(PackageError::AuthenticationFailure),
{
    crate::verification::lemma_public_key_mismatch_rejected(genuine, forged);
}

/// Determinism of the builder: two packages built from the same payload and
/// the same private key are identical, field for field and byte for byte.
pub proof fn lemma_build_deterministic(
    first: SignaturePackage,
    second: SignaturePackage,
    payload: Seq<u8>,
    key: Seq<u8>,
)
    requires
        is_built_from(first, payload, key),
        is_built_from(second, payload, key),
    ensures
        first == second,
{
    assert(first.verifier_signature =~= second.verifier_signature);
    assert(first.public_key =~= second.public_key);
    assert(first.data =~= second.data);
    assert(first =~= second);
}

} // verus!
