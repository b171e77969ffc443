//! Power-of-two sizing of the FFT working buffer. The transform pads its
//! input to the smallest power of two that holds it, so that the FFT
//! collaborator always runs on its fast path.

use vstd::arithmetic::power2::lemma2_to64;
use vstd::arithmetic::power2::lemma_pow2_unfold;
use vstd::arithmetic::power2::pow2;
use vstd::prelude::*;

verus! {

/// Smallest exponent `m` with `n <= 2^m`. The padded transform size is then
/// `2^m`. The bound on `n` keeps the doubling search inside `usize`.
pub fn find2power(n: usize) -> (m: usize)
    requires
        n <= usize::MAX / 2 + 1,
    ensures
        n <= pow2(m as nat),
        m > 0 ==> pow2((m - 1) as nat) < n,
{
    let mut m: usize = 0;
    let mut m2: usize = 1;
    assert(pow2(0) == 1) by {
        lemma2_to64();
    };
    while m2 < n
        invariant
            n <= usize::MAX / 2 + 1,
            m2 == pow2(m as nat),
            m < m2,
            m > 0 ==> pow2((m - 1) as nat) < n,
        decreases 2 * n - m2,
    {
        proof {
            lemma_pow2_unfold((m + 1) as nat);
        }
        m = m + 1;
        m2 = m2 * 2;
    }
    m
}

/// Smallest power of two that is at least `n`; the length every output row
/// of the transform is padded to.
pub fn next_pow2(n: usize) -> (r: usize)
    requires
        n <= usize::MAX / 2 + 1,
    ensures
        n <= r,
        exists|e: nat| r == pow2(e),
        r == 1 || r < 2 * n,
{
    let mut m2: usize = 1;
    let ghost mut e: nat = 0;
    assert(pow2(0) == 1) by {
        lemma2_to64();
    };
    while m2 < n
        invariant
            n <= usize::MAX / 2 + 1,
            1 <= m2,
            m2 == pow2(e),
            m2 == 1 || m2 < 2 * n,
        decreases 2 * n - m2,
    {
        proof {
            lemma_pow2_unfold((e + 1) as nat);
            e = e + 1;
        }
        m2 = m2 * 2;
    }
    assert(m2 == pow2(e));
    m2
}

} // verus!
