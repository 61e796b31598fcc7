//! Tests of the downstream verifier logic: payload parsing and validation,
//! the structural proof check, hex rendering, and the proximity circuit.

use decision_fold::codec::{encode, serialize_decision, u64_to_dec};
use decision_fold::decision::JOLTDecision;
use decision_fold::errors::VerifierError;
use decision_fold::groth16::{
    initialize_verification_account, submit_proof, verify_groth16_proof_mock, verify_submitted,
    ProofData, PublicInputs,
};
use decision_fold::instruction::{
    check_timestamp, parse_instruction, process_verification_payload, verify_proof,
    VerifyCommitmentInstruction, VerifyProofInstruction,
};
use decision_fold::proximity::ProximityCircuit;

fn sample_instruction() -> VerifyCommitmentInstruction {
    VerifyCommitmentInstruction {
        proof_id: [7u8; 32],
        commitment: [9u8; 32],
        proof_type: 2,
        timestamp: 1_700_000_000,
    }
}

#[test]
fn payload_roundtrip() {
    let instruction = sample_instruction();
    let bytes = instruction.to_bytes();
    assert_eq!(bytes.len(), 73);
    let parsed = parse_instruction(&bytes).unwrap();
    assert_eq!(parsed.proof_id, instruction.proof_id);
    assert_eq!(parsed.commitment, instruction.commitment);
    assert_eq!(parsed.proof_type, instruction.proof_type);
    assert_eq!(parsed.timestamp, instruction.timestamp);
}

#[test]
fn payload_layout_is_fixed() {
    let bytes = sample_instruction().to_bytes();
    assert_eq!(&bytes[0..32], &[7u8; 32]);
    assert_eq!(&bytes[32..64], &[9u8; 32]);
    assert_eq!(bytes[64], 2);
    assert_eq!(&bytes[65..73], &1_700_000_000u64.to_le_bytes());
}

#[test]
fn parse_rejects_wrong_length() {
    assert_eq!(
        parse_instruction(&[0u8; 72]).unwrap_err(),
        VerifierError::InvalidInstructionData
    );
    assert_eq!(
        parse_instruction(&[0u8; 74]).unwrap_err(),
        VerifierError::InvalidInstructionData
    );
}

#[test]
fn verify_proof_instruction_bytes() {
    let instruction = VerifyProofInstruction { proof_id: [3u8; 32], proof_type: 1 };
    let bytes = instruction.to_bytes();
    assert_eq!(bytes.len(), 33);
    assert_eq!(&bytes[0..32], &[3u8; 32]);
    assert_eq!(bytes[32], 1);
}

#[test]
fn verify_proof_accepts_known_types_with_nonzero_commitment() {
    let mut commitment = [0u8; 32];
    commitment[31] = 1;
    assert!(verify_proof(&commitment, 1));
    assert!(verify_proof(&commitment, 2));
    assert!(verify_proof(&commitment, 3));
    assert!(!verify_proof(&commitment, 0));
    assert!(!verify_proof(&commitment, 4));
    assert!(!verify_proof(&[0u8; 32], 2));
}

#[test]
fn timestamp_window_boundaries() {
    let now = 1_700_000_000u64;
    assert!(check_timestamp(now, now));
    assert!(check_timestamp(now + 3600, now));
    assert!(check_timestamp(now - 3600, now));
    assert!(!check_timestamp(now + 3601, now));
    assert!(!check_timestamp(now - 3601, now));
    assert!(check_timestamp(0, 100));
}

#[test]
fn payload_processing_accepts_valid_payload() {
    let now = 1_700_000_000u64;
    let bytes = sample_instruction().to_bytes();
    let key = [5u8; 32];
    let record = process_verification_payload(&bytes, now, false, &key).unwrap();
    assert_eq!(record.commitment, [9u8; 32]);
    assert_eq!(record.verifier, key);
    assert_eq!(record.timestamp, 1_700_000_000);
    assert_eq!(record.proof_type, 2);
}

#[test]
fn payload_processing_error_cases() {
    let now = 1_700_000_000u64;
    let key = [5u8; 32];
    let bytes = sample_instruction().to_bytes();
    assert_eq!(
        process_verification_payload(&bytes[..72], now, false, &key).unwrap_err(),
        VerifierError::InvalidInstructionData
    );
    assert_eq!(
        process_verification_payload(&bytes, now, true, &key).unwrap_err(),
        VerifierError::AlreadyVerified
    );
    let mut zero_commitment = sample_instruction();
    zero_commitment.commitment = [0u8; 32];
    assert_eq!(
        process_verification_payload(&zero_commitment.to_bytes(), now, false, &key).unwrap_err(),
        VerifierError::InvalidArgument
    );
    let mut stale = sample_instruction();
    stale.timestamp = now - 3601;
    assert_eq!(
        process_verification_payload(&stale.to_bytes(), now, false, &key).unwrap_err(),
        VerifierError::InvalidArgument
    );
}

fn nonzero_proof() -> ProofData {
    ProofData { a: [1, 0, 0, 0], b: [[0, 2, 0, 0], [0, 0, 0, 0]], c: [0, 0, 0, 3] }
}

fn plausible_inputs() -> PublicInputs {
    PublicInputs {
        commitment: [9u8; 32],
        proof_type: 1,
        timestamp: 1_700_000_000,
        verification_result: 0,
    }
}

#[test]
fn groth16_mock_checks_structure() {
    assert!(verify_groth16_proof_mock(&nonzero_proof(), &plausible_inputs()));
    let zero_a = ProofData { a: [0; 4], ..nonzero_proof() };
    assert!(!verify_groth16_proof_mock(&zero_a, &plausible_inputs()));
    let zero_b = ProofData { b: [[0; 4]; 2], ..nonzero_proof() };
    assert!(!verify_groth16_proof_mock(&zero_b, &plausible_inputs()));
    let zero_c = ProofData { c: [0; 4], ..nonzero_proof() };
    assert!(!verify_groth16_proof_mock(&zero_c, &plausible_inputs()));
    let zero_commitment = PublicInputs { commitment: [0u8; 32], ..plausible_inputs() };
    assert!(!verify_groth16_proof_mock(&nonzero_proof(), &zero_commitment));
    let stale = PublicInputs { timestamp: 0, ..plausible_inputs() };
    assert!(!verify_groth16_proof_mock(&nonzero_proof(), &stale));
}

#[test]
fn verification_account_flow() {
    let mut account = initialize_verification_account(&[1u8; 32], &[2u8; 32]);
    assert!(account.is_initialized);
    assert!(!account.verified);
    submit_proof(&mut account, nonzero_proof(), plausible_inputs()).unwrap();
    verify_submitted(&mut account, 1_700_000_100).unwrap();
    assert!(account.verified);
    assert_eq!(account.verification_time, 1_700_000_100);
}

#[test]
fn verification_account_rejects_invalid_submission() {
    let mut account = initialize_verification_account(&[1u8; 32], &[2u8; 32]);
    let invalid = ProofData { a: [0; 4], ..nonzero_proof() };
    submit_proof(&mut account, invalid, plausible_inputs()).unwrap();
    assert_eq!(
        verify_submitted(&mut account, 1_700_000_100).unwrap_err(),
        VerifierError::InvalidArgument
    );
    assert!(!account.verified);
}

#[test]
fn verification_account_requires_initialization() {
    let mut account = initialize_verification_account(&[1u8; 32], &[2u8; 32]);
    account.is_initialized = false;
    assert_eq!(
        submit_proof(&mut account, nonzero_proof(), plausible_inputs()).unwrap_err(),
        VerifierError::UninitializedAccount
    );
    assert_eq!(
        verify_submitted(&mut account, 1).unwrap_err(),
        VerifierError::UninitializedAccount
    );
}

#[test]
fn hex_encode_known_values() {
    assert_eq!(encode(&[]), "");
    assert_eq!(encode(&[0x00, 0xff, 0x10]), "00ff10");
    assert_eq!(encode(&[0xde, 0xad, 0xbe, 0xef]), "deadbeef");
}

#[test]
fn decimal_rendering() {
    assert_eq!(u64_to_dec(0), "0");
    assert_eq!(u64_to_dec(42), "42");
    assert_eq!(u64_to_dec(u64::MAX), "18446744073709551615");
}

#[test]
fn decision_serialization_is_fixed_width_little_endian() {
    let mut decision = JOLTDecision {
        amount: 0x0102030405060708,
        recipient_risk: 0,
        sender_history: 0,
        time_of_day_risk: 0,
        day_of_week_risk: 0,
        jurisdiction_risk: 0,
        sanctions_check: 0,
        velocity_score: 0,
        pattern_deviation: 0,
        counterparty_score: 0,
        network_risk: 0,
        volatility_index: 0,
        liquidity_score: 0,
        kyc_completeness: 0,
    };
    decision.kyc_completeness = 0x1122334455667788;
    let bytes = serialize_decision(&decision);
    assert_eq!(bytes.len(), 112);
    assert_eq!(&bytes[0..8], &0x0102030405060708u64.to_le_bytes());
    assert_eq!(&bytes[104..112], &0x1122334455667788u64.to_le_bytes());
}

#[test]
fn proximity_check_at_center_and_boundary() {
    assert!(ProximityCircuit::new(5000, 5000).check_proximity());
    assert!(ProximityCircuit::new(5100, 5000).check_proximity());
    assert!(!ProximityCircuit::new(5101, 5000).check_proximity());
    assert!(ProximityCircuit::new(4930, 5070).check_proximity());
    assert!(!ProximityCircuit::new(4929, 5071).check_proximity());
    assert!(!ProximityCircuit::new(0, 0).check_proximity());
    assert!(!ProximityCircuit::new(u64::MAX, u64::MAX).check_proximity());
}
