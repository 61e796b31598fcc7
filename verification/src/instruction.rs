//! The wire contract of the downstream commitment verifier: a 73-byte
//! instruction payload `proofId[32] ‖ commitment[32] ‖ proofType[1] ‖
//! timestamp[8, little-endian]`, and the decision core that validates it.

use vstd::prelude::*;
use vstd::bytes::{
    lemma_auto_spec_u64_to_from_le_bytes, spec_u64_from_le_bytes, spec_u64_to_le_bytes,
    u64_from_le_bytes,
};
use crate::codec::{push_bytes32, push_le_bytes, read_bytes32};
use crate::errors::VerifierError;

verus! {

/// Exact length of a raw verification payload.
pub const PAYLOAD_BYTES: usize = 73;

/// Half-width, in seconds, of the window around the verifier's clock in
/// which a payload timestamp is accepted.
pub const TIMESTAMP_WINDOW: u64 = 3600;

/// Every byte of the string is zero.
pub open spec fn spec_all_zero(s: Seq<u8>) -> bool {
    forall|i: int| 0 <= i < s.len() ==> s[i] == 0
}

/// The timestamp lies within `TIMESTAMP_WINDOW` seconds of the clock,
/// either side.
pub open spec fn spec_timestamp_in_window(ts: u64, now: u64) -> bool {
    ts <= now + TIMESTAMP_WINDOW && ts + TIMESTAMP_WINDOW >= now
}

/// A commitment-verification request as parsed from the payload.
#[derive(Clone, Copy, Debug)]
pub struct VerifyCommitmentInstruction {
    pub proof_id: [u8; 32],
    pub commitment: [u8; 32],
    pub proof_type: u8,
    pub timestamp: u64,
}

impl VerifyCommitmentInstruction {
    /// The 73-byte payload image of this request.
    pub open spec fn spec_bytes(self) -> Seq<u8> {
        self.proof_id@ + self.commitment@ + seq![self.proof_type] + spec_u64_to_le_bytes(
            self.timestamp,
        )
    }

    /// Serialize the request into its 73-byte payload.
    pub fn to_bytes(&self) -> (r: Vec<u8>)
        ensures
            r@ == self.spec_bytes(),
            r@.len() == PAYLOAD_BYTES,
    {
        let mut out: Vec<u8> = Vec::new();
        push_bytes32(&mut out, &self.proof_id);
        push_bytes32(&mut out, &self.commitment);
        out.push(self.proof_type);
        push_le_bytes(&mut out, self.timestamp);
        proof {
            lemma_auto_spec_u64_to_from_le_bytes();
            assert(Seq::<u8>::empty() + self.proof_id@ =~= self.proof_id@);
            assert(out@ =~= self.spec_bytes());
        }
        out
    }
}

/// A plain proof-verification request: the proof identifier and its kind.
#[derive(Clone, Copy, Debug)]
pub struct VerifyProofInstruction {
    pub proof_id: [u8; 32],
    pub proof_type: u8,
}

impl VerifyProofInstruction {
    /// The 33-byte image of this request: the identifier, then the kind.
    pub open spec fn spec_bytes(self) -> Seq<u8> {
        self.proof_id@ + seq![self.proof_type]
    }

    /// Serialize the request into its 33-byte image.
    pub fn to_bytes(&self) -> (r: Vec<u8>)
        ensures
            r@ == self.spec_bytes(),
            r@.len() == 33,
    {
        let mut out: Vec<u8> = Vec::new();
        push_bytes32(&mut out, &self.proof_id);
        out.push(self.proof_type);
        proof {
            assert(Seq::<u8>::empty() + self.proof_id@ =~= self.proof_id@);
            assert(out@ =~= self.spec_bytes());
        }
        out
    }
}

/// Parse a raw payload. Succeeds exactly on 73-byte payloads, handing back
/// every field as the payload laid it out; anything else is
/// `InvalidInstructionData`.
pub fn parse_instruction(data: &[u8]) -> (r: Result<VerifyCommitmentInstruction, VerifierError>)
    ensures
        data@.len() == PAYLOAD_BYTES ==> match r {
            Result::Ok(i) => {
                &&& i.proof_id@ == data@.subrange(0, 32)
                &&& i.commitment@ == data@.subrange(32, 64)
                &&& i.proof_type == data@[64]
                &&& i.timestamp == spec_u64_from_le_bytes(data@.subrange(65, 73))
            },
            Result::Err(_) => false,
        },
        data@.len() != PAYLOAD_BYTES ==> r == Result::<VerifyCommitmentInstruction,
            VerifierError,
        >::Err(VerifierError::InvalidInstructionData),
{
    if data.len() != PAYLOAD_BYTES {
        return Err(VerifierError::InvalidInstructionData);
    }
    let proof_id = read_bytes32(data, 0);
    let commitment = read_bytes32(data, 32);
    let proof_type = data[64];
    let timestamp = u64_from_le_bytes(&data[65..73]);
    Ok(VerifyCommitmentInstruction { proof_id, commitment, proof_type, timestamp })
}

/// Law (payload round trip): parsing inverts serialization — a request's
/// 73-byte image reads back field for field.
pub proof fn lemma_payload_roundtrip(i: VerifyCommitmentInstruction)
    ensures
        i.spec_bytes().len() == PAYLOAD_BYTES,
        i.spec_bytes().subrange(0, 32) == i.proof_id@,
        i.spec_bytes().subrange(32, 64) == i.commitment@,
        i.spec_bytes()[64] == i.proof_type,
        spec_u64_from_le_bytes(i.spec_bytes().subrange(65, 73)) == i.timestamp,
{
    lemma_auto_spec_u64_to_from_le_bytes();
    let s = i.spec_bytes();
    assert(s.subrange(0, 32) =~= i.proof_id@);
    assert(s.subrange(32, 64) =~= i.commitment@);
    assert(s.subrange(65, 73) =~= spec_u64_to_le_bytes(i.timestamp));
}

/// Whether all 32 commitment bytes are zero (an invalid commitment).
pub fn is_zero_commitment(commitment: &[u8; 32]) -> (r: bool)
    ensures
        r == spec_all_zero(commitment@),
{
    let mut i: usize = 0;
    while i < 32
        invariant
            i <= 32,
            forall|j: int| 0 <= j < i ==> commitment@[j] == 0,
        decreases 32 - i,
    {
        if commitment[i] != 0 {
            return false;
        }
        i += 1;
    }
    true
}

/// The structural proof check of the plain verifier: the commitment carries
/// at least one non-zero byte and the proof type is one of the three known
/// kinds.
pub fn verify_proof(commitment: &[u8; 32], proof_type: u8) -> (r: bool)
    ensures
        r == (!spec_all_zero(commitment@) && 1 <= proof_type <= 3),
{
    let has_commitment = !is_zero_commitment(commitment);
    let valid_type = 1 <= proof_type && proof_type <= 3;
    has_commitment && valid_type
}

/// Whether `ts` lies within the accepted window around the clock `now`.
pub fn check_timestamp(ts: u64, now: u64) -> (r: bool)
    requires
        now <= u64::MAX - TIMESTAMP_WINDOW,
    ensures
        r == spec_timestamp_in_window(ts, now),
{
    let lower: u64 = if now > TIMESTAMP_WINDOW {
        now - TIMESTAMP_WINDOW
    } else {
        0
    };
    ts <= now + TIMESTAMP_WINDOW && ts >= lower
}

/// What the verifier persists for an accepted payload.
#[derive(Clone, Copy, Debug)]
pub struct VerifiedProof {
    pub commitment: [u8; 32],
    /// The verifying signer's key, as its 32 raw bytes.
    pub verifier: [u8; 32],
    pub timestamp: u64,
    pub proof_type: u8,
}

/// The commitment field of a 73-byte payload.
pub open spec fn spec_payload_commitment(data: Seq<u8>) -> Seq<u8> {
    data.subrange(32, 64)
}

/// The timestamp field of a 73-byte payload.
pub open spec fn spec_payload_timestamp(data: Seq<u8>) -> u64 {
    spec_u64_from_le_bytes(data.subrange(65, 73))
}

/// A 73-byte payload is accepted when its commitment is not all-zero, its
/// timestamp lies in the window around `now`, and its commitment was not
/// verified before.
pub open spec fn spec_payload_accepted(data: Seq<u8>, now: u64, already_verified: bool) -> bool {
    &&& data.len() == PAYLOAD_BYTES
    &&& !already_verified
    &&& !spec_all_zero(spec_payload_commitment(data))
    &&& spec_timestamp_in_window(spec_payload_timestamp(data), now)
}

/// The decision core of the payload verifier: parse the 73-byte payload,
/// refuse a replayed commitment, reject an all-zero commitment and an
/// out-of-window timestamp, and produce the record to persist under the
/// derived address. `already_verified` says whether that address already
/// holds data; `verifier_key` is the paying signer's key.
pub fn process_verification_payload(
    data: &[u8],
    now: u64,
    already_verified: bool,
    verifier_key: &[u8; 32],
) -> (r: Result<VerifiedProof, VerifierError>)
    requires
        now <= u64::MAX - TIMESTAMP_WINDOW,
    ensures
        match r {
            Result::Ok(v) => {
                &&& spec_payload_accepted(data@, now, already_verified)
                &&& v.commitment@ == spec_payload_commitment(data@)
                &&& v.verifier@ == verifier_key@
                &&& v.timestamp == spec_payload_timestamp(data@)
                &&& v.proof_type == data@[64]
            },
            Result::Err(e) => {
                &&& !spec_payload_accepted(data@, now, already_verified)
                &&& (e == VerifierError::InvalidInstructionData <==> data@.len() != PAYLOAD_BYTES)
                &&& (e == VerifierError::AlreadyVerified <==> data@.len() == PAYLOAD_BYTES
                    && already_verified)
                &&& (e == VerifierError::InvalidArgument <==> data@.len() == PAYLOAD_BYTES
                    && !already_verified && (spec_all_zero(spec_payload_commitment(data@))
                    || !spec_timestamp_in_window(spec_payload_timestamp(data@), now)))
            },
        },
{
    let instruction = match parse_instruction(data) {
        Ok(i) => i,
        Err(e) => {
            return Err(e);
        },
    };
    if already_verified {
        return Err(VerifierError::AlreadyVerified);
    }
    if is_zero_commitment(&instruction.commitment) {
        return Err(VerifierError::InvalidArgument);
    }
    if !check_timestamp(instruction.timestamp, now) {
        return Err(VerifierError::InvalidArgument);
    }
    Ok(
        VerifiedProof {
            commitment: instruction.commitment,
            verifier: *verifier_key,
            timestamp: instruction.timestamp,
            proof_type: instruction.proof_type,
        },
    )
}

} // verus!
