//! Batch partitioning for the per-sample work that the engine spreads over a
//! fixed pool of workers: the normalization pass walks the output row in
//! `parts` contiguous batches of size `ceil(total / parts)`. The partition
//! law at the end pins down that the batches cover every sample exactly
//! once, whatever order the workers run in.

use vstd::arithmetic::div_mod::lemma_div_pos_is_pos;
use vstd::arithmetic::div_mod::lemma_fundamental_div_mod;
use vstd::arithmetic::div_mod::lemma_fundamental_div_mod_converse;
use vstd::arithmetic::div_mod::lemma_mod_division_less_than_divisor;
use vstd::arithmetic::div_mod::lemma_multiply_divide_lt;
use vstd::prelude::*;

verus! {

/// Ceiling division: the batch size that lets `parts` workers cover `total`
/// samples. The result is the smallest `r` with `total <= r * parts`.
pub fn ceil_div(total: usize, parts: usize) -> (r: usize)
    requires
        parts > 0,
        total + parts <= usize::MAX,
    ensures
        r == (total + parts - 1) as int / parts as int,
        total <= r * parts,
        r > 0 ==> (r - 1) * parts < total,
{
    let r = (total + parts - 1) / parts;
    proof {
        let x = (total + parts - 1) as int;
        let d = parts as int;
        lemma_fundamental_div_mod(x, d);
        lemma_mod_division_less_than_divisor(x, d);
        let q = x / d;
        assert(q * d == d * q) by (nonlinear_arith);
        assert((q - 1) * d == q * d - d) by (nonlinear_arith);
    }
    r
}

/// First sample of batch `m`, clipped to `total`.
pub open spec fn batch_start(total: int, batchsize: int, m: int) -> int {
    if batchsize * m < total {
        batchsize * m
    } else {
        total
    }
}

/// One past the last sample of batch `m`, clipped to `total`.
pub open spec fn batch_end(total: int, batchsize: int, m: int) -> int {
    if batchsize * (m + 1) < total {
        batchsize * (m + 1)
    } else {
        total
    }
}

/// The half-open sample range that worker `m` owns: batch `m` runs from
/// `batchsize * m` to `batchsize * (m + 1)`, clipped to the row length.
pub fn batch_bounds(total: usize, batchsize: usize, m: usize) -> (bounds: (usize, usize))
    requires
        batchsize > 0,
    ensures
        bounds.0 == batch_start(total as int, batchsize as int, m as int),
        bounds.1 == batch_end(total as int, batchsize as int, m as int),
        bounds.0 <= bounds.1 <= total,
{
    let b = batchsize as u128;
    let mm = m as u128;
    let t = total as u128;
    proof {
        assert(0 <= (b as int) * (mm as int) && (b as int) * (mm as int) <= (b as int) * ((mm
            as int) + 1) && (b as int) * ((mm as int) + 1) <= 0xffff_ffff_ffff_ffff
            * 0x1_0000_0000_0000_0000) by (nonlinear_arith)
            requires
                0 <= b <= 0xffff_ffff_ffff_ffff,
                0 <= mm <= 0xffff_ffff_ffff_ffff,
        ;
    }
    let s = b * mm;
    let e = b * (mm + 1);
    let start = if s < t {
        s as usize
    } else {
        total
    };
    let end = if e < t {
        e as usize
    } else {
        total
    };
    (start, end)
}

/// Law: when the batch size satisfies `total <= batchsize * parts` (as the
/// one `ceil_div` returns does), the batches `0 .. parts` cover every sample
/// index `k` below `total` exactly once: `k` falls in batch
/// `k / batchsize` and in no other.
pub proof fn lemma_batches_partition(total: int, parts: int, batchsize: int, k: int)
    requires
        parts > 0,
        batchsize > 0,
        total <= batchsize * parts,
        0 <= k < total,
    ensures
        0 <= k / batchsize < parts,
        batch_start(total, batchsize, k / batchsize) <= k < batch_end(
            total,
            batchsize,
            k / batchsize,
        ),
        forall|m: int|
            0 <= m < parts && #[trigger] batch_start(total, batchsize, m) <= k < batch_end(
                total,
                batchsize,
                m,
            ) ==> m == k / batchsize,
{
    let q = k / batchsize;
    lemma_fundamental_div_mod(k, batchsize);
    lemma_mod_division_less_than_divisor(k, batchsize);
    lemma_div_pos_is_pos(k, batchsize);
    lemma_multiply_divide_lt(k, batchsize, parts);
    assert(batchsize * q <= k < batchsize * (q + 1)) by (nonlinear_arith)
        requires
            batchsize > 0,
            k == batchsize * q + k % batchsize,
            0 <= k % batchsize < batchsize,
    ;
    assert forall|m: int|
        0 <= m < parts && #[trigger] batch_start(total, batchsize, m) <= k < batch_end(
            total,
            batchsize,
            m,
        ) implies m == k / batchsize by {
        assert(batchsize * m <= k < batchsize * (m + 1));
        assert(k == m * batchsize + (k - batchsize * m)) by (nonlinear_arith);
        assert(0 <= k - batchsize * m < batchsize) by (nonlinear_arith)
            requires
                batchsize * m <= k < batchsize * (m + 1),
        ;
        lemma_fundamental_div_mod_converse(k, batchsize, m, k - batchsize * m);
    }
}

} // verus!
