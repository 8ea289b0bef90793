//! Verifier: the byte-exact comparison of the two digest collections.

use vstd::prelude::*;

verus! {

/// The single global correctness invariant: for every sample index `n`
/// and byte offset `x` in [0, 32), digest `n` of the reference path
/// equals bytes [n*32, n*32+32) of the device digest buffer.
pub open spec fn digests_match(reference: Seq<[u8; 32]>, device: Seq<u8>) -> bool {
    forall|n: int, x: int|
        0 <= n < reference.len() && 0 <= x < 32 ==> reference[n]@[x] == device[n * 32 + x]
}

/// All positions strictly before sample `i`, byte `x` (in index-then-offset
/// order) agree between the two digest collections.
pub open spec fn digests_match_before(
    reference: Seq<[u8; 32]>,
    device: Seq<u8>,
    i: int,
    x: int,
) -> bool {
    forall|n: int, b: int|
        0 <= n < reference.len() && 0 <= b < 32 && (n < i || (n == i && b < x))
            ==> reference[n]@[b] == device[n * 32 + b]
}

/// The first disagreement between the two digest collections.
pub struct Mismatch {
    /// Sample index of the disagreeing digest.
    pub index: usize,
    /// Byte offset inside that digest, in [0, 32).
    pub offset: usize,
    /// The reference path's byte at that position.
    pub expected: u8,
    /// The device path's byte at that position.
    pub actual: u8,
}

/// Compare the reference digest set against the device digest buffer,
/// byte for byte, in index order. Succeeds exactly when every byte
/// agrees; otherwise reports the first mismatching position.
pub fn verify_digests(reference: &Vec<[u8; 32]>, device: &Vec<u8>) -> (r: Result<(), Mismatch>)
    requires
        device@.len() == reference@.len() * 32,
    ensures
        r is Ok <==> digests_match(reference@, device@),
        r matches Err(m) ==> {
            &&& (m.index as int) < reference@.len()
            &&& m.offset < 32
            &&& m.expected == reference@[m.index as int]@[m.offset as int]
            &&& m.actual == device@[m.index as int * 32 + m.offset as int]
            &&& m.expected != m.actual
            &&& digests_match_before(reference@, device@, m.index as int, m.offset as int)
        },
{
    let mut i: usize = 0;
    while i < reference.len()
        invariant
            i <= reference@.len(),
            device@.len() == reference@.len() * 32,
            digests_match_before(reference@, device@, i as int, 0),
        decreases reference@.len() - i,
    {
        let digest: [u8; 32] = reference[i];
        let mut x: usize = 0;
        while x < 32
            invariant
                i < reference@.len(),
                x <= 32,
                device@.len() == reference@.len() * 32,
                digest == reference@[i as int],
                digests_match_before(reference@, device@, i as int, x as int),
            decreases 32 - x,
        {
            let device_len = device.len();
            assert(i * 32 + x < device_len);
            let expected = digest[x];
            let actual = device[i * 32 + x];
            if expected != actual {
                return Err(Mismatch { index: i, offset: x, expected, actual });
            }
            x = x + 1;
        }
        i = i + 1;
    }
    Ok(())
}

} // verus!
