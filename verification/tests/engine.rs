//! Tests of the folding engine: risk scoring, folding, compression, the
//! commitment chain, and the rendered verifier text.

use decision_fold::accumulator::{NovaProver, PublicParameters, PROOF_BYTES};
use decision_fold::commitment::compute_commitment;
use decision_fold::decision::{DecisionInput, JOLTDecision, FIELD_ONE};
use decision_fold::errors::EngineError;
use decision_fold::risk::{risk_score, SCORE_ONE};

fn zero_decision() -> JOLTDecision {
    JOLTDecision {
        amount: 0,
        recipient_risk: 0,
        sender_history: 0,
        time_of_day_risk: 0,
        day_of_week_risk: 0,
        jurisdiction_risk: 0,
        sanctions_check: 0,
        velocity_score: 0,
        pattern_deviation: 0,
        counterparty_score: 0,
        network_risk: 0,
        volatility_index: 0,
        liquidity_score: 0,
        kyc_completeness: 0,
    }
}

fn decision_a() -> JOLTDecision {
    // All fields zero except a full-strength sanctions flag.
    JOLTDecision { sanctions_check: FIELD_ONE, ..zero_decision() }
}

fn decision_b() -> JOLTDecision {
    // A raw amount of 1000 units and full KYC completeness.
    JOLTDecision { amount: 1000 * FIELD_ONE, kyc_completeness: FIELD_ONE, ..zero_decision() }
}

#[test]
fn risk_score_zero_decision_is_zero() {
    assert_eq!(risk_score(&zero_decision()), 0);
}

#[test]
fn risk_score_stays_in_unit_interval() {
    let mut extreme = zero_decision();
    extreme.amount = u64::MAX;
    extreme.sanctions_check = u64::MAX;
    assert_eq!(risk_score(&extreme), SCORE_ONE);
    let mut negative = zero_decision();
    negative.kyc_completeness = u64::MAX;
    negative.sender_history = u64::MAX;
    assert_eq!(risk_score(&negative), 0);
}

#[test]
fn risk_score_sanctions_weight_is_one_fifth() {
    // 1.0 * 0.20 = 0.20, at the score scale of 10^10.
    assert_eq!(risk_score(&decision_a()), 2_000_000_000);
}

#[test]
fn risk_score_clamps_large_amounts() {
    // 1000 * 0.0015 - 1.0 * 0.05 = 1.45, clamped to 1.0.
    assert_eq!(risk_score(&decision_b()), SCORE_ONE);
}

#[test]
fn risk_score_monotone_in_sanctions_and_kyc() {
    let low = decision_a();
    let mut high = decision_a();
    high.sanctions_check = 2 * FIELD_ONE;
    assert!(risk_score(&low) <= risk_score(&high));
    let mut relieved = decision_a();
    relieved.kyc_completeness = FIELD_ONE;
    assert!(risk_score(&relieved) <= risk_score(&low));
}

#[test]
fn iteration_counts_folds() {
    let mut prover = NovaProver::initialize(PublicParameters::setup());
    assert_eq!(prover.parameters().circuit_arity, 1);
    assert!(prover.compress().is_err());
    for expected in 1u64..=5 {
        let outcome = prover.fold(zero_decision());
        assert_eq!(outcome.iteration, expected);
    }
    let proof = prover.compress().unwrap();
    assert_eq!(proof.iterations, 5);
}

#[test]
fn fold_scenario_sanctions_then_large_amount() {
    let mut prover = NovaProver::initialize(PublicParameters::setup());
    let first = prover.fold(decision_a());
    assert_eq!(first.iteration, 1);
    assert_eq!(first.risk_score, 2_000_000_000);
    assert_eq!(first.commitment.len(), 32);
    assert_eq!(first.commitment, compute_commitment(&vec![decision_a()], 1));

    let second = prover.fold(decision_b());
    assert_eq!(second.iteration, 2);
    assert_eq!(second.risk_score, SCORE_ONE);
    assert_ne!(second.commitment, first.commitment);
    let swapped = compute_commitment(&vec![decision_b(), decision_a()], 2);
    assert_ne!(second.commitment, swapped);
}

#[test]
fn commitment_is_deterministic() {
    let log = vec![decision_a(), decision_b()];
    assert_eq!(compute_commitment(&log, 2), compute_commitment(&log, 2));
}

#[test]
fn commitment_changes_on_reorder_and_append() {
    let ab = compute_commitment(&vec![decision_a(), decision_b()], 2);
    let ba = compute_commitment(&vec![decision_b(), decision_a()], 2);
    assert_ne!(ab, ba);
    let abz = compute_commitment(&vec![decision_a(), decision_b(), zero_decision()], 3);
    assert_ne!(ab, abz);
}

#[test]
fn commitment_changes_with_iteration_counter() {
    let log = vec![decision_a()];
    assert_ne!(compute_commitment(&log, 1), compute_commitment(&log, 2));
}

#[test]
fn commitment_is_a_real_digest() {
    // 32 bytes out of an 8-byte preimage, and not the preimage's prefix:
    // the preimage of the empty log at iteration 0 starts with 8 zero bytes.
    let c = compute_commitment(&vec![], 0);
    assert_eq!(c.len(), 32);
    assert_ne!(&c[0..8], &[0u8; 8]);
}

#[test]
fn compress_before_any_fold_is_refused() {
    let prover = NovaProver::initialize(PublicParameters::setup());
    assert_eq!(prover.compress().unwrap_err(), EngineError::NoProofAvailable);
    assert_eq!(prover.iteration(), 0);
    assert_eq!(prover.decision_count(), 0);
}

#[test]
fn compress_after_fold_succeeds() {
    let mut prover = NovaProver::initialize(PublicParameters::setup());
    prover.fold(decision_a());
    let proof = prover.compress().unwrap();
    assert_eq!(proof.iterations, 1);
    assert!(!proof.proof.is_empty());
    assert_eq!(proof.proof.len(), PROOF_BYTES);
    assert_eq!(proof.size as usize, proof.proof.len());
}

#[test]
fn two_folds_leave_both_decisions_in_order() {
    let mut prover = NovaProver::initialize(PublicParameters::setup());
    prover.fold(decision_a());
    prover.fold(decision_b());
    assert_eq!(prover.iteration(), 2);
    assert_eq!(prover.decision_count(), 2);
    assert_eq!(prover.decision_at(0), decision_a());
    assert_eq!(prover.decision_at(1), decision_b());
}

#[test]
fn folding_lanes_follow_the_spec() {
    let mut prover = NovaProver::initialize(PublicParameters::setup());
    prover.fold(decision_a());
    assert_eq!(prover.z_primary(), 2_000_000_000);
    assert_eq!(prover.z_secondary(), 0);
    prover.fold(decision_b());
    assert_eq!(prover.z_primary(), SCORE_ONE);
    assert_eq!(prover.z_secondary(), 1);
}

#[test]
fn verifier_contract_embeds_counts() {
    let mut prover = NovaProver::initialize(PublicParameters::setup());
    prover.fold(decision_a());
    prover.fold(decision_b());
    let text = prover.generate_verifier_contract();
    assert!(text.contains("// Iterations: 2\n"));
    assert!(text.contains("// Decisions: 2\n"));
    assert!(text.contains("contract NovaVerifier"));
}

#[test]
fn validate_accepts_complete_input() {
    let input = DecisionInput {
        amount: Some(5),
        recipient_risk: Some(0),
        sender_history: Some(0),
        time_of_day_risk: Some(0),
        day_of_week_risk: Some(0),
        jurisdiction_risk: Some(0),
        sanctions_check: Some(FIELD_ONE),
        velocity_score: Some(0),
        pattern_deviation: Some(0),
        counterparty_score: Some(0),
        network_risk: Some(0),
        volatility_index: Some(0),
        liquidity_score: Some(0),
        kyc_completeness: Some(0),
    };
    let decision = input.validate().unwrap();
    assert_eq!(decision.amount, 5);
    assert_eq!(decision.sanctions_check, FIELD_ONE);
}

#[test]
fn validate_rejects_missing_field() {
    let input = DecisionInput {
        amount: Some(5),
        recipient_risk: Some(0),
        sender_history: Some(0),
        time_of_day_risk: Some(0),
        day_of_week_risk: Some(0),
        jurisdiction_risk: Some(0),
        sanctions_check: None,
        velocity_score: Some(0),
        pattern_deviation: Some(0),
        counterparty_score: Some(0),
        network_risk: Some(0),
        volatility_index: Some(0),
        liquidity_score: Some(0),
        kyc_completeness: Some(0),
    };
    assert_eq!(input.validate().unwrap_err(), EngineError::InvalidDecision);
}
