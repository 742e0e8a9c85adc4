//! The two leaf primitives of the protocol — Keccak-256 and the secp256k1
//! signature scheme with public-key recovery — together with the
//! mathematical model their contracts are stated over.
//!
//! What a digest or a curve operation returns takes pages to state, so each
//! gets an uninterpreted name: a function of its arguments alone. What a few
//! lines can state exactly — which scalars are valid private keys, which
//! signature encodings parse — is stated exactly, over the big-endian value
//! of the bytes.

use vstd::prelude::*;

use sha3::Digest;

use crate::package::PackageError;

verus! {

/// The value of a byte string read as one big-endian unsigned integer.
pub open spec fn be_bytes_value(s: Seq<u8>) -> nat
    decreases s.len(),
{
    if s.len() == 0 {
        0
    } else {
        be_bytes_value(s.drop_last()) * 256 + (s.last() as nat)
    }
}

/// The order of the secp256k1 group: private scalars and signature scalars
/// must lie below it.
pub open spec fn secp256k1_order() -> nat {
    ((0xFFFFFFFF_FFFFFFFFnat * 0x1_0000_0000_0000_0000 + 0xFFFFFFFF_FFFFFFFE)
        * 0x1_0000_0000_0000_0000 + 0xBAAEDCE6_AF48A03B) * 0x1_0000_0000_0000_0000
        + 0xBFD25E8C_D0364141
}

/// A 32-byte string is a valid secp256k1 private key when its big-endian
/// value lies in `[1, order - 1]`.
pub open spec fn is_valid_secret_key(key: Seq<u8>) -> bool {
    key.len() == 32 && 1 <= be_bytes_value(key) < secp256k1_order()
}

/// Both scalars of a fixed-width `r ‖ s` signature encoding lie below the
/// group order; recovery rejects any other encoding before touching the
/// curve.
pub open spec fn signature_scalars_in_range(sig: Seq<u8>) -> bool {
    sig.len() == 64 && be_bytes_value(sig.subrange(0, 32)) < secp256k1_order()
        && be_bytes_value(sig.subrange(32, 64)) < secp256k1_order()
}

/// The Keccak-256 digest of a byte string: 32 bytes, a function of the input
/// alone.
pub uninterp spec fn keccak256_of(data: Seq<u8>) -> Seq<u8>;

/// The deterministic ECDSA signature of a 32-byte message hash under a valid
/// private scalar: the 64-byte `r ‖ s` encoding and the recovery id.
pub uninterp spec fn ecdsa_sign_of(hash: Seq<u8>, key: Seq<u8>) -> (Seq<u8>, u8);

/// The 65-byte uncompressed encoding of the public point of a valid private
/// scalar.
pub uninterp spec fn public_key_of(key: Seq<u8>) -> Seq<u8>;

/// What public-key recovery yields on a 32-byte hash, an in-range 64-byte
/// signature and a recovery id at most 3: the 64-byte coordinate encoding of
/// the recovered point, or `None` when a scalar is zero or no curve point
/// fits the given branch.
pub uninterp spec fn recovered_key_of(hash: Seq<u8>, sig: Seq<u8>, recovery_id: u8) -> Option<
    Seq<u8>,
>;

/// Relies on `sha3::Keccak256` through the `Digest` trait: the Keccak-256
/// digest is 32 bytes and depends on the input bytes alone.
#[verifier::external_body]
pub(crate) fn keccak256(data: &[u8]) -> (r: [u8; 32])
    ensures
        r@ == keccak256_of(data@),
{
    let digest = sha3::Keccak256::digest(data);
    let mut out = [0u8; 32];
    out.copy_from_slice(&digest);
    out
}

/// Relies on `libsecp256k1::SecretKey::parse`, which accepts exactly the
/// 32-byte big-endian scalars in `[1, order - 1]`: it rejects a value that
/// overflows the group order and rejects zero.
#[verifier::external_body]
pub(crate) fn secret_key_in_range(key: &[u8; 32]) -> (r: bool)
    ensures
        r == is_valid_secret_key(key@),
{
    libsecp256k1::SecretKey::parse(key).is_ok()
}

/// Relies on `libsecp256k1::PublicKey::from_secret_key` and
/// `PublicKey::serialize`: the public point of a valid scalar, encoded as 65
/// bytes whose first is the fixed uncompressed-encoding tag 4.
#[verifier::external_body]
pub(crate) fn derive_public_key(key: &[u8; 32]) -> (r: [u8; 65])
    requires
        is_valid_secret_key(key@),
    ensures
        r@ == public_key_of(key@),
        r@[0] == 4,
{
    let secret = libsecp256k1::SecretKey::parse(key).expect("scalar in range");
    libsecp256k1::PublicKey::from_secret_key(&secret).serialize()
}

/// Relies on `libsecp256k1::sign`: deterministic ECDSA with an RFC 6979-style
/// nonce, so the signature is a function of the hash and the key alone; the
/// recovery id is at most 3; both returned scalars are reduced below the
/// group order; and — the documented purpose of the recovery id — running
/// public-key recovery on the returned signature with the returned id yields
/// the signer's public point.
#[verifier::external_body]
pub(crate) fn sign_hash(hash: &[u8; 32], key: &[u8; 32]) -> (r: ([u8; 64], u8))
    requires
        is_valid_secret_key(key@),
    ensures
        r.0@ == ecdsa_sign_of(hash@, key@).0,
        r.1 == ecdsa_sign_of(hash@, key@).1,
        r.1 <= 3,
        signature_scalars_in_range(r.0@),
        recovered_key_of(hash@, r.0@, r.1) == Some(public_key_of(key@).subrange(1, 65)),
{
    let secret = libsecp256k1::SecretKey::parse(key).expect("scalar in range");
    let message = libsecp256k1::Message::parse(hash);
    let (signature, recovery_id) = libsecp256k1::sign(&message, &secret);
    (signature.serialize(), recovery_id.serialize())
}

/// Relies on libsecp256k1's recovery routine: `RecoveryId::parse` rejects ids
/// above 3, `Signature::parse_standard` rejects a scalar at or above the
/// group order, and `recover` reconstructs the public point or fails when a
/// scalar is zero or no point fits the branch; the point's coordinates are
/// its `serialize()` output without the leading tag byte.
#[verifier::external_body]
pub(crate) fn recover_public_key(hash: &[u8; 32], sig: &[u8; 64], recovery_id: u8) -> (r: Result<[u8; 64], PackageError>)
    ensures
        (r is Ok) == (recovery_id <= 3 && signature_scalars_in_range(sig@) && recovered_key_of(hash@, sig@, recovery_id) is Some),
        r matches Ok(pk) ==> Some(pk@) == recovered_key_of(hash@, sig@, recovery_id),
        r is Err ==> r->Err_0 == PackageError::MalformedSignature,
{
    let id = libsecp256k1::RecoveryId::parse(recovery_id);
    let parsed = libsecp256k1::Signature::parse_standard(sig);
    let message = libsecp256k1::Message::parse(hash);
    match (id, parsed) {
        (Ok(id), Ok(parsed)) => match libsecp256k1::recover(&message, &parsed, &id) {
            Ok(point) => {
                let mut out = [0u8; 64];
                out.copy_from_slice(&point.serialize()[1..65]);
                Ok(out)
            },
            Err(_) => Err(PackageError::MalformedSignature),
        },
        _ => Err(PackageError::MalformedSignature),
    }
}

} // verus!
