//! The structural proof verifier: plain-data proof points and public
//! inputs, the account record they are verified into, and the mock
//! structural validity check standing where a pairing check would go.

use vstd::prelude::*;
use crate::errors::VerifierError;
use crate::instruction::spec_all_zero;

verus! {

/// A proof as three compressed curve points, each field element split into
/// 64-bit limbs.
#[derive(Clone, Copy, Debug)]
pub struct ProofData {
    pub a: [u64; 4],
    pub b: [[u64; 4]; 2],
    pub c: [u64; 4],
}

/// The public inputs a proof is checked against.
#[derive(Clone, Copy, Debug)]
pub struct PublicInputs {
    pub commitment: [u8; 32],
    pub proof_type: u8,
    pub timestamp: i64,
    pub verification_result: u8,
}

/// The on-record state of one verification: who submitted what, and whether
/// it verified.
#[derive(Clone, Copy, Debug)]
pub struct VerificationAccount {
    pub is_initialized: bool,
    pub proof_id: [u8; 32],
    /// The verifying signer's key, as its 32 raw bytes.
    pub verifier: [u8; 32],
    pub proof_data: ProofData,
    pub public_inputs: PublicInputs,
    pub verified: bool,
    pub verification_time: i64,
}

/// Some limb of the point is non-zero.
pub open spec fn spec_any_nonzero(s: Seq<u64>) -> bool {
    exists|i: int| 0 <= i < s.len() && s[i] != 0
}

/// Every proof point carries at least one non-zero limb.
pub open spec fn spec_proof_points_nonzero(p: ProofData) -> bool {
    &&& spec_any_nonzero(p.a@)
    &&& (spec_any_nonzero(p.b@[0]@) || spec_any_nonzero(p.b@[1]@))
    &&& spec_any_nonzero(p.c@)
}

/// The public inputs are plausible: a non-zero commitment and a positive
/// timestamp.
pub open spec fn spec_inputs_plausible(pi: PublicInputs) -> bool {
    &&& !spec_all_zero(pi.commitment@)
    &&& pi.timestamp > 0
}

/// The whole structural check the mock verifier applies.
pub open spec fn spec_mock_valid(p: ProofData, pi: PublicInputs) -> bool {
    spec_proof_points_nonzero(p) && spec_inputs_plausible(pi)
}

/// Whether any limb of a point is non-zero.
fn any_nonzero_limb(point: &[u64; 4]) -> (r: bool)
    ensures
        r == spec_any_nonzero(point@),
{
    let mut i: usize = 0;
    while i < 4
        invariant
            i <= 4,
            forall|j: int| 0 <= j < i ==> point@[j] == 0,
        decreases 4 - i,
    {
        if point[i] != 0 {
            return true;
        }
        i += 1;
    }
    false
}

/// Whether any byte of the commitment is non-zero.
fn any_nonzero_byte(bytes: &[u8; 32]) -> (r: bool)
    ensures
        r == !spec_all_zero(bytes@),
{
    let mut i: usize = 0;
    while i < 32
        invariant
            i <= 32,
            forall|j: int| 0 <= j < i ==> bytes@[j] == 0,
        decreases 32 - i,
    {
        if bytes[i] != 0 {
            return true;
        }
        i += 1;
    }
    false
}

/// The mock verification standing in for a pairing check: every proof point
/// non-zero somewhere, a non-zero commitment, and a positive timestamp.
pub fn verify_groth16_proof_mock(proof: &ProofData, public_inputs: &PublicInputs) -> (r: bool)
    ensures
        r == spec_mock_valid(*proof, *public_inputs),
{
    let a_valid = any_nonzero_limb(&proof.a);
    let b_valid = any_nonzero_limb(&proof.b[0]) || any_nonzero_limb(&proof.b[1]);
    let c_valid = any_nonzero_limb(&proof.c);
    let commitment_valid = any_nonzero_byte(&public_inputs.commitment);
    let timestamp_valid = public_inputs.timestamp > 0;
    a_valid && b_valid && c_valid && commitment_valid && timestamp_valid
}

/// Every field of the proof data is zero.
pub open spec fn spec_zero_proof_data(p: ProofData) -> bool {
    &&& forall|i: int| 0 <= i < 4 ==> p.a@[i] == 0
    &&& forall|i: int, j: int| 0 <= i < 2 && 0 <= j < 4 ==> p.b@[i]@[j] == 0
    &&& forall|i: int| 0 <= i < 4 ==> p.c@[i] == 0
}

/// The freshly-initialized record for a proof identifier: bound to the payer,
/// with zeroed proof data and inputs, not yet verified.
pub fn initialize_verification_account(proof_id: &[u8; 32], payer: &[u8; 32]) -> (acc:
    VerificationAccount)
    ensures
        acc.is_initialized,
        acc.proof_id@ == proof_id@,
        acc.verifier@ == payer@,
        spec_zero_proof_data(acc.proof_data),
        spec_all_zero(acc.public_inputs.commitment@),
        acc.public_inputs.proof_type == 0,
        acc.public_inputs.timestamp == 0,
        acc.public_inputs.verification_result == 0,
        !acc.verified,
        acc.verification_time == 0,
{
    VerificationAccount {
        is_initialized: true,
        proof_id: *proof_id,
        verifier: *payer,
        proof_data: ProofData { a: [0u64; 4], b: [[0u64; 4]; 2], c: [0u64; 4] },
        public_inputs: PublicInputs {
            commitment: [0u8; 32],
            proof_type: 0,
            timestamp: 0,
            verification_result: 0,
        },
        verified: false,
        verification_time: 0,
    }
}

/// Store submitted proof data and public inputs into an initialized record;
/// an uninitialized record is refused untouched.
pub fn submit_proof(
    account: &mut VerificationAccount,
    proof_data: ProofData,
    public_inputs: PublicInputs,
) -> (r: Result<(), VerifierError>)
    ensures
        old(account).is_initialized ==> {
            &&& r is Ok
            &&& final(account).proof_data == proof_data
            &&& final(account).public_inputs == public_inputs
            &&& final(account).is_initialized == old(account).is_initialized
            &&& final(account).proof_id == old(account).proof_id
            &&& final(account).verifier == old(account).verifier
            &&& final(account).verified == old(account).verified
            &&& final(account).verification_time == old(account).verification_time
        },
        !old(account).is_initialized ==> r == Result::<(), VerifierError>::Err(
            VerifierError::UninitializedAccount,
        ) && *final(account) == *old(account),
{
    if !account.is_initialized {
        return Err(VerifierError::UninitializedAccount);
    }
    account.proof_data = proof_data;
    account.public_inputs = public_inputs;
    Ok(())
}

/// Run the mock verification over an initialized record: on success mark it
/// verified at the clock reading `now`; on failure, or on an uninitialized
/// record, leave the record untouched and say why.
pub fn verify_submitted(account: &mut VerificationAccount, now: i64) -> (r: Result<
    (),
    VerifierError,
>)
    ensures
        !old(account).is_initialized ==> r == Result::<(), VerifierError>::Err(
            VerifierError::UninitializedAccount,
        ) && *final(account) == *old(account),
        old(account).is_initialized && spec_mock_valid(
            old(account).proof_data,
            old(account).public_inputs,
        ) ==> {
            &&& r is Ok
            &&& final(account).verified
            &&& final(account).verification_time == now
            &&& final(account).is_initialized == old(account).is_initialized
            &&& final(account).proof_id == old(account).proof_id
            &&& final(account).verifier == old(account).verifier
            &&& final(account).proof_data == old(account).proof_data
            &&& final(account).public_inputs == old(account).public_inputs
        },
        old(account).is_initialized && !spec_mock_valid(
            old(account).proof_data,
            old(account).public_inputs,
        ) ==> r == Result::<(), VerifierError>::Err(VerifierError::InvalidArgument)
            && *final(account) == *old(account),
{
    if !account.is_initialized {
        return Err(VerifierError::UninitializedAccount);
    }
    if verify_groth16_proof_mock(&account.proof_data, &account.public_inputs) {
        account.verified = true;
        account.verification_time = now;
        Ok(())
    } else {
        Err(VerifierError::InvalidArgument)
    }
}

} // verus!
