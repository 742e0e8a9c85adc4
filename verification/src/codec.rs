//! The wire format: a package serializes to exactly 162 bytes — signature,
//! recovery id, public key, payload, in that order, with no padding — and an
//! instruction envelope puts a single message-kind tag byte in front of it.
//! Ill-formed bytes decode to an error, never to a crash.

use vstd::prelude::*;

use crate::package::{PackageError, ProgramInstruction, SignaturePackage};

verus! {

/// The message-kind tag that marks a "verify signature" instruction.
pub const VERIFY_SIG_TAG: u8 = 0;

/// The byte length of an encoded package.
pub const PACKAGE_LEN: usize = 162;

/// The byte length of an encoded instruction: the tag and the package.
pub const INSTRUCTION_LEN: usize = 163;

/// The 162-byte wire form of a package:
/// `verifier_signature(64) ‖ recovery_id(1) ‖ public_key(65) ‖ data(32)`.
pub open spec fn package_bytes(pkg: SignaturePackage) -> Seq<u8> {
    pkg.verifier_signature@ + seq![pkg.recovery_id] + pkg.public_key@ + pkg.data@
}

/// The 163-byte wire form of an instruction: the message-kind tag, then the
/// package it encloses.
pub open spec fn instruction_bytes(instruction: ProgramInstruction) -> Seq<u8> {
    match instruction {
        ProgramInstruction::VerifySig(pkg) => seq![VERIFY_SIG_TAG] + package_bytes(pkg),
    }
}

/// The byte strings that decode at all: exactly 163 bytes under the known
/// message-kind tag.
pub open spec fn well_formed_instruction_bytes(bytes: Seq<u8>) -> bool {
    bytes.len() == 163 && bytes[0] == VERIFY_SIG_TAG
}

/// Append a byte string to the output buffer.
fn push_bytes(out: &mut Vec<u8>, bytes: &[u8])
    ensures
        final(out)@ == old(out)@ + bytes@,
{
    let mut i: usize = 0;
    while i < bytes.len()
        invariant
            i <= bytes@.len(),
            out@ == old(out)@ + bytes@.take(i as int),
        decreases bytes@.len() - i,
    {
        out.push(bytes[i]);
        proof {
            assert(bytes@.take(i + 1) =~= bytes@.take(i as int).push(bytes@[i as int]));
        }
        i = i + 1;
    }
    proof {
        assert(bytes@.take(bytes@.len() as int) =~= bytes@);
    }
}

/// Serialize an instruction to its wire form.
pub fn encode_instruction(instruction: &ProgramInstruction) -> (r: Vec<u8>)
    ensures
        r@ == instruction_bytes(*instruction),
{
    match instruction {
        ProgramInstruction::VerifySig(pkg) => {
            let mut out: Vec<u8> = Vec::new();
            out.push(VERIFY_SIG_TAG);
            push_bytes(&mut out, pkg.verifier_signature.as_slice());
            out.push(pkg.recovery_id);
            push_bytes(&mut out, pkg.public_key.as_slice());
            push_bytes(&mut out, pkg.data.as_slice());
            proof {
                assert(out@ =~= instruction_bytes(*instruction));
            }
            out
        },
    }
}

/// Copy `N` bytes out of the input, starting at `start`.
fn read_array<const N: usize>(bytes: &[u8], start: usize) -> (r: [u8; N])
    requires
        start + N <= bytes@.len(),
    ensures
        r@ == bytes@.subrange(start as int, start as int + N as int),
{
    let len = bytes.len();
    let mut out = [0u8; N];
    let mut i: usize = 0;
    while i < N
        invariant
            i <= N,
            start + N <= len == bytes@.len(),
            out@.len() == N,
            forall|j: int| 0 <= j < i ==> out@[j] == bytes@[start + j],
        decreases N - i,
    {
        out[i] = bytes[start + i];
        i = i + 1;
    }
    proof {
        assert(out@ =~= bytes@.subrange(start as int, start as int + N as int));
    }
    out
}

/// Deserialize an instruction from its wire form. Truncated or oversized
/// input, or an unknown message-kind tag, is a malformed package; exactly the
/// well-formed byte strings decode, and what they decode to encodes back to
/// the same bytes.
pub fn decode_instruction(instruction_data: &[u8]) -> (r: Result<ProgramInstruction, PackageError>)
    ensures
        (r is Ok) == well_formed_instruction_bytes(instruction_data@),
        r matches Ok(instruction) ==> instruction_bytes(instruction) == instruction_data@,
        r is Err ==> r->Err_0 == PackageError::MalformedPackage,
{
    if instruction_data.len() != INSTRUCTION_LEN {
        return Err(PackageError::MalformedPackage);
    }
    if instruction_data[0] != VERIFY_SIG_TAG {
        return Err(PackageError::MalformedPackage);
    }
    let verifier_signature: [u8; 64] = read_array(instruction_data, 1);
    let recovery_id = instruction_data[65];
    let public_key: [u8; 65] = read_array(instruction_data, 66);
    let data: [u8; 32] = read_array(instruction_data, 131);
    let package = SignaturePackage { verifier_signature, recovery_id, public_key, data };
    let instruction = ProgramInstruction::VerifySig(package);
    proof {
        assert(instruction_bytes(instruction) =~= instruction_data@);
    }
    Ok(instruction)
}

/// A package encodes to exactly [`PACKAGE_LEN`] bytes with no padding; the
/// instruction envelope adds the one tag byte.
pub proof fn lemma_wire_lengths(pkg: SignaturePackage)
    ensures
        package_bytes(pkg).len() == PACKAGE_LEN,
        instruction_bytes(ProgramInstruction::VerifySig(pkg)).len() == INSTRUCTION_LEN,
{
}

/// The wire encoding is injective: instructions with the same wire form are
/// the same instruction. Together with the contracts of
/// [`encode_instruction`] and [`decode_instruction`], decoding an encoded
/// instruction returns it unchanged.
pub proof fn lemma_instruction_bytes_injective(
    first: ProgramInstruction,
    second: ProgramInstruction,
)
    requires
        instruction_bytes(first) == instruction_bytes(second),
    ensures
        first == second,
{
    match (first, second) {
        (ProgramInstruction::VerifySig(p1), ProgramInstruction::VerifySig(p2)) => {
            let b1 = instruction_bytes(first);
            let b2 = instruction_bytes(second);
            assert forall|j: int| 0 <= j < 64 implies p1.verifier_signature@[j]
                == p2.verifier_signature@[j] by {
                assert(b1[j + 1] == p1.verifier_signature@[j]);
                assert(b2[j + 1] == p2.verifier_signature@[j]);
            }
            assert(p1.recovery_id == b1[65] && p2.recovery_id == b2[65]);
            assert forall|j: int| 0 <= j < 65 implies p1.public_key@[j] == p2.public_key@[j] by {
                assert(b1[j + 66] == p1.public_key@[j]);
                assert(b2[j + 66] == p2.public_key@[j]);
            }
            assert forall|j: int| 0 <= j < 32 implies p1.data@[j] == p2.data@[j] by {
                assert(b1[j + 131] == p1.data@[j]);
                assert(b2[j + 131] == p2.data@[j]);
            }
            assert(p1.verifier_signature =~= p2.verifier_signature);
            assert(p1.public_key =~= p2.public_key);
            assert(p1.data =~= p2.data);
            assert(p1 =~= p2);
        },
    }
}

} // verus!
