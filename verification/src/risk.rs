//! The risk encoder: a weighted linear combination of the fourteen decision
//! signals, clamped to the unit interval.
//!
//! Weights are a frozen constant of the design, kept in units of 1/10000 so
//! that scores stay comparable across every decision ever encoded. A score is
//! a fixed-point value in `[0, SCORE_ONE]`: field micro-units times weight
//! ten-thousandths give a score scale of 10^10 per unit.

use vstd::prelude::*;
use crate::decision::JOLTDecision;

verus! {

/// A full-strength risk score of 1.0, at the score scale.
pub const SCORE_ONE: u64 = 10_000_000_000;

// Positive weights (raise risk), in 1/10000 units: 0.0015 for the raw
// amount, 0.15 recipient risk, 0.05 time of day, 0.05 day of week,
// 0.10 jurisdiction, 0.20 sanctions, 0.10 velocity, 0.08 pattern deviation,
// 0.05 network risk, 0.05 volatility.
pub const W_AMOUNT: u64 = 15;

pub const W_RECIPIENT_RISK: u64 = 1500;

pub const W_TIME_OF_DAY: u64 = 500;

pub const W_DAY_OF_WEEK: u64 = 500;

pub const W_JURISDICTION: u64 = 1000;

pub const W_SANCTIONS: u64 = 2000;

pub const W_VELOCITY: u64 = 1000;

pub const W_PATTERN_DEVIATION: u64 = 800;

pub const W_NETWORK_RISK: u64 = 500;

pub const W_VOLATILITY: u64 = 500;

// Magnitudes of the negative weights (lower risk): 0.10 sender history,
// 0.08 counterparty score, 0.05 liquidity, 0.05 KYC completeness.
pub const W_SENDER_HISTORY: u64 = 1000;

pub const W_COUNTERPARTY: u64 = 800;

pub const W_LIQUIDITY: u64 = 500;

pub const W_KYC: u64 = 500;

/// Sum of the positively-weighted terms of the raw score.
pub open spec fn raising_part(d: JOLTDecision) -> int {
    d.amount * W_AMOUNT + d.recipient_risk * W_RECIPIENT_RISK + d.time_of_day_risk * W_TIME_OF_DAY
        + d.day_of_week_risk * W_DAY_OF_WEEK + d.jurisdiction_risk * W_JURISDICTION
        + d.sanctions_check * W_SANCTIONS + d.velocity_score * W_VELOCITY + d.pattern_deviation
        * W_PATTERN_DEVIATION + d.network_risk * W_NETWORK_RISK + d.volatility_index * W_VOLATILITY
}

/// Sum of the magnitudes of the negatively-weighted terms.
pub open spec fn lowering_part(d: JOLTDecision) -> int {
    d.sender_history * W_SENDER_HISTORY + d.counterparty_score * W_COUNTERPARTY + d.liquidity_score
        * W_LIQUIDITY + d.kyc_completeness * W_KYC
}

/// The raw (unclamped) weighted sum of all fourteen signals.
pub open spec fn raw_risk(d: JOLTDecision) -> int {
    raising_part(d) - lowering_part(d)
}

/// The risk score: the raw weighted sum clamped to `[0, SCORE_ONE]`.
pub open spec fn spec_risk_score(d: JOLTDecision) -> u64 {
    let raw = raw_risk(d);
    if raw < 0 {
        0
    } else if raw > SCORE_ONE {
        SCORE_ONE
    } else {
        raw as u64
    }
}

/// One weighted term: a field value times a small constant weight. The bound
/// on the result keeps the fourteen-term sums far from overflow.
fn weighted(x: u64, w: u64) -> (r: u128)
    requires
        w <= 2000,
    ensures
        r == x * w,
        r <= 0xffff_ffff_ffff_ffff * 2000,
{
    proof {
        vstd::arithmetic::mul::lemma_mul_upper_bound(x as int, 0xffff_ffff_ffff_ffff, w as int, 2000);
    }
    (x as u128) * (w as u128)
}

/// Pure risk encoder over a decision. The score always lies in the unit
/// interval `[0, SCORE_ONE]`.
pub fn risk_score(d: &JOLTDecision) -> (r: u64)
    ensures
        r == spec_risk_score(*d),
        r <= SCORE_ONE,
{
    let raising: u128 = weighted(d.amount, W_AMOUNT) + weighted(d.recipient_risk, W_RECIPIENT_RISK)
        + weighted(d.time_of_day_risk, W_TIME_OF_DAY) + weighted(d.day_of_week_risk, W_DAY_OF_WEEK)
        + weighted(d.jurisdiction_risk, W_JURISDICTION) + weighted(d.sanctions_check, W_SANCTIONS)
        + weighted(d.velocity_score, W_VELOCITY) + weighted(d.pattern_deviation, W_PATTERN_DEVIATION)
        + weighted(d.network_risk, W_NETWORK_RISK) + weighted(d.volatility_index, W_VOLATILITY);
    let lowering: u128 = weighted(d.sender_history, W_SENDER_HISTORY) + weighted(
        d.counterparty_score,
        W_COUNTERPARTY,
    ) + weighted(d.liquidity_score, W_LIQUIDITY) + weighted(d.kyc_completeness, W_KYC);
    if raising <= lowering {
        0
    } else {
        let diff: u128 = raising - lowering;
        if diff > SCORE_ONE as u128 {
            SCORE_ONE
        } else {
            diff as u64
        }
    }
}

/// Every positively-weighted field of `a` is at most that of `b`.
pub open spec fn raising_fields_le(a: JOLTDecision, b: JOLTDecision) -> bool {
    &&& a.amount <= b.amount
    &&& a.recipient_risk <= b.recipient_risk
    &&& a.time_of_day_risk <= b.time_of_day_risk
    &&& a.day_of_week_risk <= b.day_of_week_risk
    &&& a.jurisdiction_risk <= b.jurisdiction_risk
    &&& a.sanctions_check <= b.sanctions_check
    &&& a.velocity_score <= b.velocity_score
    &&& a.pattern_deviation <= b.pattern_deviation
    &&& a.network_risk <= b.network_risk
    &&& a.volatility_index <= b.volatility_index
}

/// Every negatively-weighted field of `a` is at least that of `b`.
pub open spec fn lowering_fields_ge(a: JOLTDecision, b: JOLTDecision) -> bool {
    &&& a.sender_history >= b.sender_history
    &&& a.counterparty_score >= b.counterparty_score
    &&& a.liquidity_score >= b.liquidity_score
    &&& a.kyc_completeness >= b.kyc_completeness
}

/// Law: the risk score is monotone — non-decreasing in every field with a
/// positive weight and non-increasing in every field with a negative weight,
/// the other fields held fixed (or moved the same way).
pub proof fn lemma_risk_score_monotone(a: JOLTDecision, b: JOLTDecision)
    requires
        raising_fields_le(a, b),
        lowering_fields_ge(a, b),
    ensures
        spec_risk_score(a) <= spec_risk_score(b),
{
    assert(raising_part(a) <= raising_part(b));
    assert(lowering_part(a) >= lowering_part(b));
}

} // verus!
