//! The package verifier: recompute the signed hash, recover the public key
//! from the signature and the recovery id, and compare it byte for byte
//! against the key embedded in the package.

use vstd::prelude::*;

use crate::codec::{
    decode_instruction, instruction_bytes, lemma_instruction_bytes_injective,
    well_formed_instruction_bytes,
};
use crate::crypto::{
    keccak256, keccak256_of, recover_public_key, recovered_key_of, signature_scalars_in_range,
};
use crate::package::{PackageError, ProgramInstruction, SignaturePackage};

verus! {

/// The outcome verification owes a package.
///
/// A recovery id above 3, an out-of-range signature scalar, or a signature
/// from which no curve point can be recovered is a malformed signature, and
/// recovery is never attempted on it. Otherwise the package is authentic
/// exactly when the recovered coordinates equal the embedded public key's
/// coordinates — the prefix byte of the embedded key is not compared.
pub open spec fn verify_spec(pkg: SignaturePackage) -> Result<(), PackageError> {
    let recovered = recovered_key_of(
        keccak256_of(pkg.data@),
        pkg.verifier_signature@,
        pkg.recovery_id,
    );
    if !(pkg.recovery_id <= 3 && signature_scalars_in_range(pkg.verifier_signature@)
        && recovered is Some) {
        Err(PackageError::MalformedSignature)
    } else if recovered != Some(pkg.public_key@.subrange(1, 65)) {
        Err(PackageError::AuthenticationFailure)
    } else {
        Ok(())
    }
}

/// The recovered coordinates equal the embedded key's, ignoring its prefix
/// byte.
fn coordinates_match(recovered: &[u8; 64], embedded: &[u8; 65]) -> (r: bool)
    ensures
        r == (recovered@ == embedded@.subrange(1, 65)),
{
    let mut i: usize = 0;
    while i < 64
        invariant
            i <= 64,
            forall|j: int| 0 <= j < i ==> recovered@[j] == embedded@[j + 1],
        decreases 64 - i,
    {
        if recovered[i] != embedded[i + 1] {
            assert(recovered@[i as int] != embedded@.subrange(1, 65)[i as int]);
            return false;
        }
        i = i + 1;
    }
    proof {
        assert(recovered@ =~= embedded@.subrange(1, 65));
    }
    true
}

/// Verify a signature package: recompute `Keccak256(data)`, recover the
/// public key the signature was made under, and require it to equal the
/// embedded one. Stateless and all-or-nothing; the outcome is exactly
/// [`verify_spec`].
pub fn verify_signature_with_recover(signature_package: &SignaturePackage) -> (r: Result<
    (),
    PackageError,
>)
    ensures
        r == verify_spec(*signature_package),
{
    let message_hash = keccak256(signature_package.data.as_slice());
    let recovered = match recover_public_key(
        &message_hash,
        &signature_package.verifier_signature,
        signature_package.recovery_id,
    ) {
        Ok(pk) => pk,
        Err(e) => {
            return Err(e);
        },
    };
    if coordinates_match(&recovered, &signature_package.public_key) {
        Ok(())
    } else {
        Err(PackageError::AuthenticationFailure)
    }
}

/// The verifying service's entry point: decode the instruction envelope and
/// verify the package it encloses. Ill-formed bytes are a malformed package;
/// well-formed bytes get exactly the verification outcome of the package they
/// spell.
pub fn process_instruction(instruction_data: &[u8]) -> (r: Result<(), PackageError>)
    ensures
        !well_formed_instruction_bytes(instruction_data@) ==> r == Err::<(), PackageError>(
            PackageError::MalformedPackage,
        ),
        well_formed_instruction_bytes(instruction_data@) ==> forall|pkg: SignaturePackage|
            instruction_bytes(ProgramInstruction::VerifySig(pkg)) == instruction_data@
                ==> r == verify_spec(pkg),
{
    let instruction = match decode_instruction(instruction_data) {
        Ok(instruction) => instruction,
        Err(e) => {
            return Err(e);
        },
    };
    match instruction {
        ProgramInstruction::VerifySig(package) => {
            let outcome = verify_signature_with_recover(&package);
            proof {
                assert forall|pkg: SignaturePackage|
                    instruction_bytes(ProgramInstruction::VerifySig(pkg))
                        == instruction_data@ implies verify_spec(pkg) == verify_spec(package) by {
                    lemma_instruction_bytes_injective(
                        ProgramInstruction::VerifySig(pkg),
                        instruction,
                    );
                }
            }
            outcome
        },
    }
}

/// A recovery id above 3 is rejected as a malformed signature; recovery is
/// never attempted on it.
pub proof fn lemma_recovery_id_bound(pkg: SignaturePackage)
    requires
        pkg.recovery_id > 3,
    ensures
        verify_spec(pkg) == Err::<(), PackageError>(PackageError::MalformedSignature),
{
}

/// Tamper sensitivity of the embedded key: a package that verifies stops
/// verifying as soon as the coordinate bytes of its `public_key` field
/// change, whatever the change; only its prefix byte is not compared.
pub proof fn lemma_public_key_mismatch_rejected(pkg: SignaturePackage, tampered: SignaturePackage)
    requires
        verify_spec(pkg) == Ok::<(), PackageError>(()),
        tampered.verifier_signature@ == pkg.verifier_signature@,
        tampered.recovery_id == pkg.recovery_id,
        tampered.data@ == pkg.data@,
        tampered.public_key@.subrange(1, 65) != pkg.public_key@.subrange(1, 65),
    ensures
        verify_spec(tampered) == Err::<(), PackageError>(PackageError::AuthenticationFailure),
{
}

} // verus!
