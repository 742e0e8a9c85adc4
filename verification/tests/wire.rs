//! Tests of the wire format: layout, round trip, rejection of ill-formed
//! bytes, and the verifying service's entry point over encoded instructions.

use signature_package::builder::create_and_sign_package;
use signature_package::codec::{decode_instruction, encode_instruction};
use signature_package::package::{PackageError, ProgramInstruction, SignaturePackage};
use signature_package::verification::process_instruction;

fn sample_package() -> SignaturePackage {
    let mut key = [0u8; 32];
    key[31] = 1;
    create_and_sign_package([0x42u8; 32], &key).expect("valid key must build")
}

#[test]
fn encoding_layout_is_fixed() {
    let pkg = sample_package();
    let bytes = encode_instruction(&ProgramInstruction::VerifySig(pkg));
    assert_eq!(bytes.len(), 163);
    assert_eq!(bytes[0], 0);
    assert_eq!(&bytes[1..65], &pkg.verifier_signature[..]);
    assert_eq!(bytes[65], pkg.recovery_id);
    assert_eq!(&bytes[66..131], &pkg.public_key[..]);
    assert_eq!(&bytes[131..163], &pkg.data[..]);
}

#[test]
fn decode_inverts_encode() {
    let pkg = sample_package();
    let bytes = encode_instruction(&ProgramInstruction::VerifySig(pkg));
    let decoded = decode_instruction(&bytes).expect("well-formed bytes must decode");
    let ProgramInstruction::VerifySig(back) = decoded;
    assert_eq!(back.verifier_signature, pkg.verifier_signature);
    assert_eq!(back.recovery_id, pkg.recovery_id);
    assert_eq!(back.public_key, pkg.public_key);
    assert_eq!(back.data, pkg.data);
}

#[test]
fn truncated_input_rejects() {
    let bytes = encode_instruction(&ProgramInstruction::VerifySig(sample_package()));
    for len in [0, 1, 64, 162] {
        assert_eq!(
            decode_instruction(&bytes[..len]).err(),
            Some(PackageError::MalformedPackage),
            "length {len}"
        );
    }
}

#[test]
fn oversized_input_rejects() {
    let mut bytes = encode_instruction(&ProgramInstruction::VerifySig(sample_package()));
    bytes.push(0);
    assert_eq!(decode_instruction(&bytes).err(), Some(PackageError::MalformedPackage));
}

#[test]
fn unknown_tag_rejects() {
    let mut bytes = encode_instruction(&ProgramInstruction::VerifySig(sample_package()));
    bytes[0] = 1;
    assert_eq!(decode_instruction(&bytes).err(), Some(PackageError::MalformedPackage));
}

#[test]
fn process_instruction_accepts_genuine_package() {
    let bytes = encode_instruction(&ProgramInstruction::VerifySig(sample_package()));
    assert_eq!(process_instruction(&bytes), Ok(()));
}

#[test]
fn process_instruction_rejects_tampered_payload() {
    let mut pkg = sample_package();
    pkg.data = [0u8; 32];
    let bytes = encode_instruction(&ProgramInstruction::VerifySig(pkg));
    assert_eq!(process_instruction(&bytes), Err(PackageError::AuthenticationFailure));
}

#[test]
fn process_instruction_rejects_zero_signature() {
    // 163 zero bytes carry the right tag and decode, but the all-zero
    // signature has r = 0, from which no public key can be recovered.
    assert_eq!(process_instruction(&[0u8; 163]), Err(PackageError::MalformedSignature));
}

#[test]
fn process_instruction_rejects_garbage() {
    assert_eq!(process_instruction(&[0u8; 10]), Err(PackageError::MalformedPackage));
    assert_eq!(process_instruction(&[]), Err(PackageError::MalformedPackage));
}
