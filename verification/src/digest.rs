//! The cryptographic hash behind the commitment chain.

use vstd::prelude::*;
use sha2::Digest;

verus! {

/// The SHA-256 digest of a byte stream, named abstractly: the digest is a
/// pure function of the input bytes alone, the same in every process and on
/// every machine.
pub uninterp spec fn sha256_of(bytes: Seq<u8>) -> Seq<u8>;

/// Relies on sha2::Sha256 (through the Digest trait): a one-shot digest of
/// the input bytes, always exactly 32 bytes long.
#[verifier::external_body]
pub(crate) fn sha256(bytes: &[u8]) -> (r: Vec<u8>)
    ensures
        r@ == sha256_of(bytes@),
        r@.len() == 32,
{
    sha2::Sha256::digest(bytes).to_vec()
}

} // verus!
