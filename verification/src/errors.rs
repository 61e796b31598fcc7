//! Error taxonomy of the engine and of the downstream payload verifier.

use vstd::prelude::*;

verus! {

/// Errors returned by the folding engine itself.
#[derive(Clone, Copy, Debug, PartialEq, Eq, Structural)]
pub enum EngineError {
    /// A required numeric field of a decision is missing; raised at the
    /// encoding boundary before any state mutation.
    InvalidDecision,
    /// Compression was requested before any fold had occurred.
    NoProofAvailable,
}

/// Errors signalled by the downstream commitment verifier's decision logic.
#[derive(Clone, Copy, Debug, PartialEq, Eq, Structural)]
pub enum VerifierError {
    /// The instruction payload does not have the expected length.
    InvalidInstructionData,
    /// The commitment is all-zero, or the timestamp lies outside the
    /// accepted window around the verifier's clock.
    InvalidArgument,
    /// The commitment was already verified once (replay protection).
    AlreadyVerified,
    /// The verification record was used before being initialized.
    UninitializedAccount,
}

} // verus!
