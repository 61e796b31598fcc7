//! The decision record: fourteen named risk signals in fixed-point form.

use vstd::prelude::*;
use crate::errors::EngineError;

verus! {

/// One unit (a full-strength signal of 1.0) of a decision field, in
/// micro-units. All fields are non-negative fixed-point values at this scale,
/// so a raw amount of 1000 currency units is `1000 * FIELD_ONE`.
pub const FIELD_ONE: u64 = 1_000_000;

/// A risk-scored decision over fourteen named signals. Immutable once
/// created; owned by the accumulator's decision log after being folded.
#[derive(Clone, Copy, Debug, PartialEq, Eq, Structural)]
pub struct JOLTDecision {
    pub amount: u64,
    pub recipient_risk: u64,
    pub sender_history: u64,
    pub time_of_day_risk: u64,
    pub day_of_week_risk: u64,
    pub jurisdiction_risk: u64,
    pub sanctions_check: u64,
    pub velocity_score: u64,
    pub pattern_deviation: u64,
    pub counterparty_score: u64,
    pub network_risk: u64,
    pub volatility_index: u64,
    pub liquidity_score: u64,
    pub kyc_completeness: u64,
}

/// A decision as it arrives at the encoding boundary: every field may still
/// be absent. `validate` turns it into a `JOLTDecision` or rejects it.
#[derive(Clone, Copy, Debug)]
pub struct DecisionInput {
    pub amount: Option<u64>,
    pub recipient_risk: Option<u64>,
    pub sender_history: Option<u64>,
    pub time_of_day_risk: Option<u64>,
    pub day_of_week_risk: Option<u64>,
    pub jurisdiction_risk: Option<u64>,
    pub sanctions_check: Option<u64>,
    pub velocity_score: Option<u64>,
    pub pattern_deviation: Option<u64>,
    pub counterparty_score: Option<u64>,
    pub network_risk: Option<u64>,
    pub volatility_index: Option<u64>,
    pub liquidity_score: Option<u64>,
    pub kyc_completeness: Option<u64>,
}

impl DecisionInput {
    /// All fourteen required fields are present.
    pub open spec fn complete(self) -> bool {
        &&& self.amount is Some
        &&& self.recipient_risk is Some
        &&& self.sender_history is Some
        &&& self.time_of_day_risk is Some
        &&& self.day_of_week_risk is Some
        &&& self.jurisdiction_risk is Some
        &&& self.sanctions_check is Some
        &&& self.velocity_score is Some
        &&& self.pattern_deviation is Some
        &&& self.counterparty_score is Some
        &&& self.network_risk is Some
        &&& self.volatility_index is Some
        &&& self.liquidity_score is Some
        &&& self.kyc_completeness is Some
    }

    /// The decision carried by a complete input.
    pub open spec fn as_decision(self) -> JOLTDecision
        recommends
            self.complete(),
    {
        JOLTDecision {
            amount: self.amount->0,
            recipient_risk: self.recipient_risk->0,
            sender_history: self.sender_history->0,
            time_of_day_risk: self.time_of_day_risk->0,
            day_of_week_risk: self.day_of_week_risk->0,
            jurisdiction_risk: self.jurisdiction_risk->0,
            sanctions_check: self.sanctions_check->0,
            velocity_score: self.velocity_score->0,
            pattern_deviation: self.pattern_deviation->0,
            counterparty_score: self.counterparty_score->0,
            network_risk: self.network_risk->0,
            volatility_index: self.volatility_index->0,
            liquidity_score: self.liquidity_score->0,
            kyc_completeness: self.kyc_completeness->0,
        }
    }

    /// Accepts the input exactly when every required field is present, and
    /// rejects it with `InvalidDecision` otherwise.
    pub fn validate(&self) -> (r: Result<JOLTDecision, EngineError>)
        ensures
            self.complete() ==> r == Result::<JOLTDecision, EngineError>::Ok(self.as_decision()),
            !self.complete() ==> r == Result::<JOLTDecision, EngineError>::Err(
                EngineError::InvalidDecision,
            ),
    {
        match (
            self.amount,
            self.recipient_risk,
            self.sender_history,
            self.time_of_day_risk,
            self.day_of_week_risk,
            self.jurisdiction_risk,
            self.sanctions_check,
            self.velocity_score,
            self.pattern_deviation,
            self.counterparty_score,
            self.network_risk,
            self.volatility_index,
            self.liquidity_score,
            self.kyc_completeness,
        ) {
            (
                Some(amount),
                Some(recipient_risk),
                Some(sender_history),
                Some(time_of_day_risk),
                Some(day_of_week_risk),
                Some(jurisdiction_risk),
                Some(sanctions_check),
                Some(velocity_score),
                Some(pattern_deviation),
                Some(counterparty_score),
                Some(network_risk),
                Some(volatility_index),
                Some(liquidity_score),
                Some(kyc_completeness),
            ) => Ok(
                JOLTDecision {
                    amount,
                    recipient_risk,
                    sender_history,
                    time_of_day_risk,
                    day_of_week_risk,
                    jurisdiction_risk,
                    sanctions_check,
                    velocity_score,
                    pattern_deviation,
                    counterparty_score,
                    network_risk,
                    volatility_index,
                    liquidity_score,
                    kyc_completeness,
                },
            ),
            _ => Err(EngineError::InvalidDecision),
        }
    }
}

} // verus!
