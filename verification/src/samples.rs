//! Sample generation: the deterministic input batch.

use vstd::prelude::*;

verus! {

/// Total number of samples in the fixed batch: 200 * 200 * 128.
pub const SAMPLE_COUNT: usize = 5120000;

/// The sample at batch position `n`: payload triple (i, j, k) in
/// lexicographic order, followed by a zero padding byte.
pub open spec fn sample_at(n: int) -> Seq<u8> {
    seq![
        (n / 25600) as u8,
        ((n / 128) % 200) as u8,
        (n % 128) as u8,
        0u8,
    ]
}

/// Produce the whole batch: every (i, j, k) combination as the 4-byte
/// sample [i, j, k, 0], in lexicographic (i, j, k) order.
pub fn generate_samples() -> (r: Vec<[u8; 4]>)
    ensures
        r@.len() == SAMPLE_COUNT,
        forall|n: int| 0 <= n < r@.len() ==> r@[n]@ == sample_at(n),
{
    let mut vec: Vec<[u8; 4]> = Vec::new();
    let mut i: u8 = 0;
    while i < 200
        invariant
            i <= 200,
            vec@.len() == i as int * 25600,
            forall|n: int| 0 <= n < vec@.len() ==> vec@[n]@ == sample_at(n),
        decreases 200 - i,
    {
        let mut j: u8 = 0;
        while j < 200
            invariant
                i < 200,
                j <= 200,
                vec@.len() == i as int * 25600 + j as int * 128,
                forall|n: int| 0 <= n < vec@.len() ==> vec@[n]@ == sample_at(n),
            decreases 200 - j,
        {
            let mut k: u8 = 0;
            while k < 128
                invariant
                    i < 200,
                    j < 200,
                    k <= 128,
                    vec@.len() == i as int * 25600 + j as int * 128 + k as int,
                    forall|n: int| 0 <= n < vec@.len() ==> vec@[n]@ == sample_at(n),
                decreases 128 - k,
            {
                let sample: [u8; 4] = [i, j, k, 0];
                proof {
                    lemma_sample_at_encoding(i as int, j as int, k as int);
                    assert(sample@ == sample_at(vec@.len() as int));
                }
                vec.push(sample);
                k = k + 1;
            }
            j = j + 1;
        }
        i = i + 1;
    }
    vec
}

/// A batch position is recovered exactly from the three payload bytes of
/// its sample.
proof fn lemma_sample_decomposition(n: int)
    requires
        0 <= n < SAMPLE_COUNT as int,
    ensures
        n == (n / 25600) * 25600 + ((n / 128) % 200) * 128 + n % 128,
        0 <= n / 25600 < 200,
        0 <= (n / 128) % 200 < 200,
        0 <= n % 128 < 128,
{
    assert(n == (n / 25600) * 25600 + ((n / 128) % 200) * 128 + n % 128 && 0 <= n / 25600 < 200)
        by (nonlinear_arith)
        requires
            0 <= n < 5120000,
    ;
}

/// Uniqueness of the batch payloads: samples at two distinct batch
/// positions differ in their payload triple, so no payload triple occurs
/// twice in the generated batch.
pub proof fn lemma_sample_payloads_unique(m: int, n: int)
    requires
        0 <= m < SAMPLE_COUNT as int,
        0 <= n < SAMPLE_COUNT as int,
        m != n,
    ensures
        sample_at(m) != sample_at(n),
{
    lemma_sample_decomposition(m);
    lemma_sample_decomposition(n);
    if sample_at(m) == sample_at(n) {
        assert(sample_at(m)[0] == sample_at(n)[0]);
        assert(sample_at(m)[1] == sample_at(n)[1]);
        assert(sample_at(m)[2] == sample_at(n)[2]);
        assert(m / 25600 == n / 25600);
        assert((m / 128) % 200 == (n / 128) % 200);
        assert(m % 128 == n % 128);
        assert(false);
    }
}

/// Encoding a triple at its lexicographic position decodes back to the
/// same triple.
proof fn lemma_sample_at_encoding(i: int, j: int, k: int)
    requires
        0 <= i < 200,
        0 <= j < 200,
        0 <= k < 128,
    ensures
        sample_at(i * 25600 + j * 128 + k) == seq![i as u8, j as u8, k as u8, 0u8],
{
    let n = i * 25600 + j * 128 + k;
    assert(n / 25600 == i) by (nonlinear_arith)
        requires
            0 <= i < 200,
            0 <= j < 200,
            0 <= k < 128,
            n == i * 25600 + j * 128 + k,
    ;
    assert((n / 128) % 200 == j) by (nonlinear_arith)
        requires
            0 <= i < 200,
            0 <= j < 200,
            0 <= k < 128,
            n == i * 25600 + j * 128 + k,
    ;
    assert(n % 128 == k) by (nonlinear_arith)
        requires
            0 <= i < 200,
            0 <= j < 200,
            0 <= k < 128,
            n == i * 25600 + j * 128 + k,
    ;
    assert(sample_at(n) =~= seq![i as u8, j as u8, k as u8, 0u8]);
}

} // verus!
