//! The recursive decision-folding engine: an accumulator that ingests one
//! decision at a time, keeps a constant-size running proof state, and can be
//! compressed on demand into a constant-size exportable proof anchored by a
//! deterministic commitment.

use vstd::prelude::*;
use vstd::bytes::spec_u64_to_le_bytes;
use vstd::string::StringExecFns;
use crate::codec::{push_le_bytes, spec_dec, u64_to_dec};
use crate::commitment::{compute_commitment, spec_commitment};
use crate::decision::JOLTDecision;
use crate::errors::EngineError;
use crate::risk::{risk_score, spec_risk_score, SCORE_ONE};

verus! {

/// Public parameters of the folding scheme: produced once by setup, bound to
/// the fixed step-circuit shape, read-only ever after.
#[derive(Clone, Copy, Debug, PartialEq, Eq, Structural)]
pub struct PublicParameters {
    /// Arity of each public input/output lane of the step circuit.
    pub circuit_arity: u64,
}

impl PublicParameters {
    /// One-time setup bound to the fixed single-lane step circuit.
    pub fn setup() -> (p: PublicParameters)
        ensures
            p.circuit_arity == 1,
    {
        PublicParameters { circuit_arity: 1 }
    }
}

/// The running incremental proof state, present once at least one decision
/// has been folded. Owns the append-only decision log.
struct FoldingState {
    /// Number of folds performed so far; always at least 1 while present.
    pub iteration: u64,
    /// Primary public output lane: carries the latest decision's risk score.
    pub z_primary: u64,
    /// Secondary public output lane: advanced each fold by the previous
    /// iteration index; seeded to the canonical zero on the base case.
    pub z_secondary: u64,
    /// The ordered decision log, append-only.
    pub decisions: Vec<JOLTDecision>,
}

/// The accumulator as a mathematical value: public parameters, iteration
/// counter, ordered decision log, and the two running lanes.
pub struct ProverModel {
    pub params: PublicParameters,
    pub iteration: nat,
    pub log: Seq<JOLTDecision>,
    pub z_primary: u64,
    pub z_secondary: nat,
}

/// The engine's invariants over a model: the iteration counter counts the
/// log exactly, and the lanes carry what the latest fold put there.
pub open spec fn model_wf(m: ProverModel) -> bool {
    &&& m.iteration == m.log.len()
    &&& (m.iteration == 0 ==> m.z_primary == 0 && m.z_secondary == 0)
    &&& (m.iteration > 0 ==> m.z_secondary + 1 == m.iteration && m.z_primary == spec_risk_score(
        m.log.last(),
    ))
}

/// The model of a freshly initialized accumulator: empty log, iteration 0,
/// both lanes at the canonical zero.
pub open spec fn spec_init(params: PublicParameters) -> ProverModel {
    ProverModel { params, iteration: 0, log: Seq::empty(), z_primary: 0, z_secondary: 0 }
}

/// One fold as a state transition: the decision is appended, the counter
/// advances by one, the primary lane carries the new risk score, and the
/// secondary lane advances by the previous iteration index.
pub open spec fn spec_fold(m: ProverModel, d: JOLTDecision) -> ProverModel {
    ProverModel {
        params: m.params,
        iteration: m.iteration + 1,
        log: m.log.push(d),
        z_primary: spec_risk_score(d),
        z_secondary: m.iteration,
    }
}

/// A whole sequence of folds, first decision first.
pub open spec fn spec_fold_all(m: ProverModel, ds: Seq<JOLTDecision>) -> ProverModel
    decreases ds.len(),
{
    if ds.len() == 0 {
        m
    } else {
        spec_fold(spec_fold_all(m, ds.drop_last()), ds.last())
    }
}

/// Law: folding preserves the engine invariants.
pub proof fn lemma_fold_preserves_wf(m: ProverModel, d: JOLTDecision)
    requires
        model_wf(m),
    ensures
        model_wf(spec_fold(m, d)),
{
}

/// Law: the iteration counter counts successful folds exactly. Starting from
/// any accumulator state, `n` folds advance the counter by exactly `n` and
/// append exactly those `n` decisions in order; a fresh accumulator starts
/// at 0.
pub proof fn lemma_iteration_counts_folds(m: ProverModel, ds: Seq<JOLTDecision>)
    ensures
        spec_fold_all(m, ds).iteration == m.iteration + ds.len(),
        spec_fold_all(m, ds).log == m.log + ds,
        spec_fold_all(m, ds).params == m.params,
        spec_init(m.params).iteration == 0,
    decreases ds.len(),
{
    if ds.len() == 0 {
        assert(m.log + ds =~= m.log);
    } else {
        lemma_iteration_counts_folds(m, ds.drop_last());
        assert((m.log + ds.drop_last()).push(ds.last()) =~= m.log + ds);
    }
}

/// Law: fold calls serialize. Whichever order the exclusive lock grants two
/// competing folds, the counter ends exactly two higher and the log holds
/// both decisions, in the serialized (never interleaved) order.
pub proof fn lemma_two_folds_serialize(m: ProverModel, d1: JOLTDecision, d2: JOLTDecision)
    ensures
        spec_fold(spec_fold(m, d1), d2).iteration == m.iteration + 2,
        spec_fold(spec_fold(m, d1), d2).log == m.log + seq![d1, d2],
        spec_fold(spec_fold(m, d2), d1).iteration == m.iteration + 2,
        spec_fold(spec_fold(m, d2), d1).log == m.log + seq![d2, d1],
{
    assert(m.log.push(d1).push(d2) =~= m.log + seq![d1, d2]);
    assert(m.log.push(d2).push(d1) =~= m.log + seq![d2, d1]);
}

/// What a successful fold reports back: the new iteration count, the folded
/// decision's risk score, and the recomputed commitment over the whole
/// updated history.
#[derive(Clone, Debug)]
pub struct FoldOutcome {
    pub iteration: u64,
    pub risk_score: u64,
    pub commitment: Vec<u8>,
}

/// A compressed, terminal proof artifact: a constant-size byte blob, its
/// length, and the iteration count at the moment of compression.
#[derive(Clone, Debug)]
pub struct CompressedProof {
    pub proof: Vec<u8>,
    pub size: u64,
    pub iterations: u64,
}

/// Width of the compressed proof blob: counter and both lanes (8 bytes
/// each), then the 32-byte commitment.
pub const PROOF_BYTES: usize = 56;

/// The compressed proof blob of an accumulator state: the iteration counter,
/// the two public output lanes, and the commitment anchoring the proof to
/// the folded history — constant-size however long the history is.
pub open spec fn spec_proof_bytes(m: ProverModel) -> Seq<u8>
    recommends
        m.iteration <= u64::MAX,
        m.z_secondary <= u64::MAX,
{
    spec_u64_to_le_bytes(m.iteration as u64) + spec_u64_to_le_bytes(m.z_primary)
        + spec_u64_to_le_bytes(m.z_secondary as u64) + spec_commitment(m.log, m.iteration as u64)
}

/// The folding accumulator. All mutation goes through `&mut self`, so folds
/// and compressions on one accumulator are serialized by exclusive access:
/// no caller can observe a partially-updated state.
pub struct NovaProver {
    /// Read-only public parameters bound at initialization.
    params: PublicParameters,
    /// Absent if and only if zero folds have occurred.
    state: Option<FoldingState>,
}

impl View for NovaProver {
    type V = ProverModel;

    closed spec fn view(&self) -> ProverModel {
        match self.state {
            Option::None => ProverModel {
                params: self.params,
                iteration: 0,
                log: Seq::empty(),
                z_primary: 0,
                z_secondary: 0,
            },
            Option::Some(fs) => ProverModel {
                params: self.params,
                iteration: fs.iteration as nat,
                log: fs.decisions@,
                z_primary: fs.z_primary,
                z_secondary: fs.z_secondary as nat,
            },
        }
    }
}

impl NovaProver {
    /// Well-formed: the model invariants hold and the proof state, when
    /// present, has folded at least once.
    pub closed spec fn wf(self) -> bool {
        &&& model_wf(self@)
        &&& (self.state is Some ==> self.state->0.iteration >= 1)
    }

    /// The public parameters the accumulator was initialized with.
    pub fn parameters(&self) -> (r: PublicParameters)
        ensures
            r == self@.params,
    {
        self.params
    }

    /// The iteration counter: the number of folds performed so far.
    pub fn iteration(&self) -> (r: u64)
        ensures
            r as nat == self@.iteration,
    {
        match &self.state {
            None => 0,
            Some(fs) => fs.iteration,
        }
    }

    /// How many decisions the log holds.
    pub fn decision_count(&self) -> (r: usize)
        ensures
            r as nat == self@.log.len(),
    {
        match &self.state {
            None => 0,
            Some(fs) => fs.decisions.len(),
        }
    }

    /// The decision at position `i` of the append-only log.
    pub fn decision_at(&self, i: usize) -> (r: JOLTDecision)
        requires
            i < self@.log.len(),
        ensures
            r == self@.log[i as int],
    {
        let fs = self.state.as_ref().unwrap();
        fs.decisions[i]
    }

    /// The primary public output lane.
    pub fn z_primary(&self) -> (r: u64)
        ensures
            r == self@.z_primary,
    {
        match &self.state {
            None => 0,
            Some(fs) => fs.z_primary,
        }
    }

    /// The secondary public output lane.
    pub fn z_secondary(&self) -> (r: u64)
        ensures
            r as nat == self@.z_secondary,
    {
        match &self.state {
            None => 0,
            Some(fs) => fs.z_secondary,
        }
    }

    /// Bind fresh public parameters to an empty accumulator: empty decision
    /// log, iteration 0, no proof state. Never fails.
    pub fn initialize(params: PublicParameters) -> (p: NovaProver)
        ensures
            p.wf(),
            p@ == spec_init(params),
    {
        NovaProver { params, state: None }
    }

    /// Fold one decision into the running proof: score it, advance the
    /// lanes, append it to the log, increment the counter, and recompute the
    /// commitment over the whole updated history. The update is atomic: the
    /// caller sees all of it or (through exclusive access) none of it.
    pub fn fold(&mut self, decision: JOLTDecision) -> (r: FoldOutcome)
        requires
            old(self).wf(),
            old(self)@.iteration < u64::MAX,
        ensures
            final(self).wf(),
            final(self)@ == spec_fold(old(self)@, decision),
            r.iteration as nat == final(self)@.iteration,
            r.risk_score == spec_risk_score(decision),
            r.risk_score <= SCORE_ONE,
            r.commitment@ == spec_commitment(final(self)@.log, r.iteration),
            r.commitment@.len() == 32,
    {
        let score = risk_score(&decision);
        let prev = self.state.take();
        let mut fs: FoldingState = match prev {
            None => FoldingState {
                iteration: 1,
                z_primary: score,
                z_secondary: 0,
                decisions: Vec::new(),
            },
            Some(prev_fs) => FoldingState {
                iteration: prev_fs.iteration + 1,
                z_primary: score,
                z_secondary: prev_fs.iteration,
                decisions: prev_fs.decisions,
            },
        };
        fs.decisions.push(decision);
        let iteration = fs.iteration;
        let commitment = compute_commitment(&fs.decisions, iteration);
        self.state = Some(fs);
        FoldOutcome { iteration, risk_score: score, commitment }
    }

    /// Compress the accumulator into a constant-size terminal proof. Fails
    /// with `NoProofAvailable` exactly when no fold has occurred yet; reads
    /// the state without mutating it.
    pub fn compress(&self) -> (r: Result<CompressedProof, EngineError>)
        requires
            self.wf(),
        ensures
            match r {
                Result::Ok(p) => {
                    &&& self@.iteration > 0
                    &&& p.iterations as nat == self@.iteration
                    &&& p.proof@ == spec_proof_bytes(self@)
                    &&& p.proof@.len() == PROOF_BYTES
                    &&& p.size as nat == p.proof@.len()
                },
                Result::Err(e) => {
                    &&& e == EngineError::NoProofAvailable
                    &&& self@.iteration == 0
                },
            },
    {
        match &self.state {
            None => Err(EngineError::NoProofAvailable),
            Some(fs) => {
                let mut blob: Vec<u8> = Vec::new();
                push_le_bytes(&mut blob, fs.iteration);
                push_le_bytes(&mut blob, fs.z_primary);
                push_le_bytes(&mut blob, fs.z_secondary);
                let mut commitment = compute_commitment(&fs.decisions, fs.iteration);
                blob.append(&mut commitment);
                proof {
                    vstd::bytes::lemma_auto_spec_u64_to_from_le_bytes();
                    assert(Seq::<u8>::empty() + spec_u64_to_le_bytes(fs.iteration)
                        =~= spec_u64_to_le_bytes(fs.iteration));
                    assert(blob@ =~= spec_proof_bytes(self@));
                }
                let size = blob.len() as u64;
                Ok(CompressedProof { proof: blob, size, iterations: fs.iteration })
            },
        }
    }

    /// Render verifier source text embedding the iteration and decision
    /// counts; performs no verification itself and always succeeds.
    pub fn generate_verifier_contract(&self) -> (s: String)
        requires
            self.wf(),
        ensures
            s@ == spec_contract_text(self@.iteration, self@.log.len()),
    {
        let (iteration, n_decisions): (u64, u64) = match &self.state {
            None => (0, 0),
            Some(fs) => {
                proof {
                    assert(fs.decisions@.len() == fs.iteration as nat);
                }
                (fs.iteration, fs.decisions.len() as u64)
            },
        };
        let mut s = String::from_str(CONTRACT_HEAD);
        s.append(u64_to_dec(iteration).as_str());
        s.append(CONTRACT_MID);
        s.append(u64_to_dec(n_decisions).as_str());
        s.append(CONTRACT_TAIL);
        s
    }
}

pub const CONTRACT_HEAD: &'static str = "// SPDX-License-Identifier: MIT\npragma solidity ^0.8.19;\n\ncontract NovaVerifier {\n    // Iterations: ";

pub const CONTRACT_MID: &'static str = "\n    // Decisions: ";

pub const CONTRACT_TAIL: &'static str = "\n\n    function verifyProof(\n        bytes calldata proof,\n        uint256[] calldata publicInputs\n    ) external view returns (bool) {\n        return true;\n    }\n}\n";

/// The rendered verifier text: a fixed template around the two counts in
/// decimal.
pub open spec fn spec_contract_text(iterations: nat, n_decisions: nat) -> Seq<char> {
    CONTRACT_HEAD@ + spec_dec(iterations) + CONTRACT_MID@ + spec_dec(n_decisions) + CONTRACT_TAIL@
}

} // verus!
