//! The commitment chain: a deterministic hash anchor over the ordered
//! decision history and the iteration counter.

use vstd::prelude::*;
use crate::codec::{spec_stream, stream_bytes};
use crate::decision::JOLTDecision;
use crate::digest::{sha256, sha256_of};

verus! {

/// The commitment over a decision history: the SHA-256 digest of the
/// serialized iteration counter followed by every decision in log order.
pub open spec fn spec_commitment(log: Seq<JOLTDecision>, iteration: u64) -> Seq<u8> {
    sha256_of(spec_stream(log, iteration))
}

/// Recompute the commitment over the full log and iteration counter.
pub fn compute_commitment(log: &Vec<JOLTDecision>, iteration: u64) -> (r: Vec<u8>)
    ensures
        r@ == spec_commitment(log@, iteration),
        r@.len() == 32,
{
    let stream = stream_bytes(log, iteration);
    sha256(stream.as_slice())
}

/// Law (determinism): the commitment is a pure function of the ordered log
/// and the iteration counter — identical histories always commit identically.
pub proof fn lemma_commitment_deterministic(
    l1: Seq<JOLTDecision>,
    k1: u64,
    l2: Seq<JOLTDecision>,
    k2: u64,
)
    requires
        l1 == l2,
        k1 == k2,
    ensures
        spec_commitment(l1, k1) == spec_commitment(l2, k2),
{
}

} // verus!
