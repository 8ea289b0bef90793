//! Reference hasher: the sequential, trusted digest pass.

use vstd::prelude::*;
use sha3::{Digest, Keccak256};

verus! {

/// The Keccak-256 digest of a message, as a sequence of 32 bytes. The
/// digest is a pure function of the message bytes; its bit-level
/// definition is the hash primitive's own business and is not restated
/// here.
pub uninterp spec fn keccak256_of(msg: Seq<u8>) -> Seq<u8>;

/// Relies on sha3::Keccak256 (one-shot `Digest::digest`): Keccak-256 is
/// deterministic, depends on the input bytes alone, and yields exactly
/// 32 bytes.
#[verifier::external_body]
fn keccak256(msg: &[u8; 4]) -> (r: [u8; 32])
    ensures
        r@ == keccak256_of(msg@),
{
    Keccak256::digest(msg).into()
}

/// Hash every sample of the batch sequentially, in batch order, one
/// digest per sample, index-aligned with the batch.
pub fn cpu_keccak(samples: &Vec<[u8; 4]>) -> (r: Vec<[u8; 32]>)
    ensures
        r@.len() == samples@.len(),
        forall|n: int| 0 <= n < samples@.len() ==> r@[n]@ == keccak256_of(samples@[n]@),
{
    let mut output: Vec<[u8; 32]> = Vec::new();
    let mut idx: usize = 0;
    while idx < samples.len()
        invariant
            idx <= samples@.len(),
            output@.len() == idx,
            forall|n: int| 0 <= n < idx ==> output@[n]@ == keccak256_of(samples@[n]@),
        decreases samples@.len() - idx,
    {
        let msg: [u8; 4] = samples[idx];
        let digest = keccak256(&msg);
        output.push(digest);
        idx = idx + 1;
    }
    output
}

/// Idempotence of the reference pass: any two digest sequences that are
/// index-aligned digests of the same batch are identical, so re-running
/// the reference hasher on the same batch reproduces the same output.
pub proof fn lemma_reference_idempotent(
    samples: Seq<[u8; 4]>,
    first: Seq<[u8; 32]>,
    second: Seq<[u8; 32]>,
)
    requires
        first.len() == samples.len(),
        second.len() == samples.len(),
        forall|n: int| 0 <= n < samples.len() ==> first[n]@ == keccak256_of(samples[n]@),
        forall|n: int| 0 <= n < samples.len() ==> second[n]@ == keccak256_of(samples[n]@),
    ensures
        first == second,
{
    assert forall|n: int| 0 <= n < first.len() implies first[n] == second[n] by {
        assert(first[n]@ == second[n]@);
        assert(first[n] =~= second[n]);
    }
    assert(first =~= second);
}

} // verus!
