use sha2::{Digest, Sha256};
use uplc_zkvm::UplcError;
use uplc_zkvm::verification::{
    ProofCheck, VkDecode, check_commitment, check_commitment_hex, verify_stark,
};

fn reference_commitment(program: &[u8], result: &str) -> Vec<u8> {
    let mut hasher = Sha256::new();
    hasher.update(program);
    hasher.update(result.as_bytes());
    hasher.finalize().to_vec()
}

#[test]
fn check_commitment_matches_true_result() {
    let program = b"\x01\x00\x00\x48\x15\x01";
    let commitment = reference_commitment(program, "integer 42");
    assert!(check_commitment(program, "integer 42", &commitment));
}

#[test]
fn check_commitment_rejects_altered_result() {
    let program = b"\x01\x00\x00\x48\x15\x01";
    let commitment = reference_commitment(program, "integer 42");
    assert!(!check_commitment(program, "integer 43", &commitment));
}

#[test]
fn check_commitment_rejects_wrong_length() {
    assert!(!check_commitment(b"\x01", "r", b"\x00\x01"));
}

#[test]
fn check_commitment_hex_match_and_mismatch() {
    let program_hex = "010000481501";
    let program = hex::decode(program_hex).unwrap();
    let commitment_hex = hex::encode(reference_commitment(&program, "Integer(42)"));
    assert_eq!(
        check_commitment_hex(program_hex, "Integer(42)", &commitment_hex).unwrap(),
        true
    );
    assert_eq!(
        check_commitment_hex(program_hex, "Integer(43)", &commitment_hex).unwrap(),
        false
    );
}

#[test]
fn check_commitment_hex_rejects_bad_program_hex() {
    let r = check_commitment_hex("nothex", "r", "00");
    assert!(matches!(r, Err(UplcError::DecodeError(_))));
}

#[test]
fn verify_stark_malformed_key_is_an_error_not_false() {
    let r = verify_stark(VkDecode::Malformed("bad magic".to_string()), None);
    let e = r.unwrap_err();
    assert_eq!(e, "Failed to deserialize verification key: bad magic");
}

#[test]
fn verify_stark_accepted_proof_is_true() {
    let r = verify_stark(VkDecode::Decoded, Some(ProofCheck::Accepted));
    assert_eq!(r.unwrap(), true);
}

#[test]
fn verify_stark_rejected_proof_is_false_not_error() {
    let r = verify_stark(
        VkDecode::Decoded,
        Some(ProofCheck::Rejected("constraint unsatisfied".to_string())),
    );
    assert_eq!(r.unwrap(), false);
}
