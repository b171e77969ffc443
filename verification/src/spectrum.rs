//! Structural work on the spectrum buffer: zero-padding the input up to the
//! working size, mirroring the upper half of the spectrum so that the
//! single-sided daughter-wavelet multiplication has support on both ends,
//! and snapshotting one independent copy of the shared spectrum per scale.
//! The element type is generic: the verified core fixes where every sample
//! goes, while the numeric kernels decide what a sample is.

use vstd::prelude::*;

verus! {

/// Extends `buf` with copies of `fill` until it has length `n`: the
/// zero-padding step that brings the input buffer up to the power-of-two
/// working size. Entries already present are kept unchanged.
pub fn pad_to<T: Copy>(buf: &mut Vec<T>, n: usize, fill: T)
    requires
        old(buf).len() <= n,
    ensures
        final(buf).len() == n,
        forall|i: int| 0 <= i < old(buf).len() ==> final(buf)[i] == old(buf)[i],
        forall|i: int| old(buf).len() <= i < n ==> final(buf)[i] == fill,
{
    while buf.len() < n
        invariant
            old(buf).len() <= buf.len() <= n,
            forall|i: int| 0 <= i < old(buf).len() ==> buf[i] == old(buf)[i],
            forall|i: int| old(buf).len() <= i < buf.len() ==> buf[i] == fill,
        decreases n - buf.len(),
    {
        buf.push(fill);
    }
}

/// Copies the lower half of the spectrum onto its upper end: for every `i`
/// in `[1, len/2)` the entry at `len - i` becomes the entry at `i`. Entries
/// at positions `0` through `len - len/2` are left as they were.
pub fn mirror_spectrum<T: Copy>(buf: &mut Vec<T>)
    ensures
        final(buf).len() == old(buf).len(),
        forall|j: int|
            0 <= j < old(buf).len() && j <= old(buf).len() - old(buf).len() / 2
                ==> final(buf)[j] == old(buf)[j],
        forall|j: int|
            old(buf).len() - old(buf).len() / 2 < j < old(buf).len()
                ==> final(buf)[j] == old(buf)[old(buf).len() - j],
{
    let n = buf.len();
    let mut i: usize = 1;
    while i < n / 2
        invariant
            1 <= i,
            n == buf.len() == old(buf).len(),
            i <= n / 2 || i == 1,
            forall|j: int| 0 <= j < n && j <= n - i ==> buf[j] == old(buf)[j],
            forall|j: int| n - i < j < n ==> buf[j] == old(buf)[n - j],
        decreases n / 2 - i,
    {
        let v = buf[i];
        buf.set(n - i, v);
        i = i + 1;
    }
}

/// One private copy of the shared spectrum.
fn copy_of<T: Copy>(spectrum: &Vec<T>) -> (copy: Vec<T>)
    ensures
        copy@ == spectrum@,
{
    let mut copy: Vec<T> = Vec::new();
    let mut j: usize = 0;
    while j < spectrum.len()
        invariant
            j == copy.len() <= spectrum.len(),
            forall|i: int| 0 <= i < j ==> copy[i] == spectrum[i],
        decreases spectrum.len() - j,
    {
        copy.push(spectrum[j]);
        j = j + 1;
    }
    assert(copy@ =~= spectrum@);
    copy
}

/// Runs the per-scale stage of the transform. Scale index `i` gets its own
/// private copy of the shared post-mirror spectrum — the per-scale
/// multiplication is destructive, so no two scales may share a buffer — and
/// the kernel turns that copy into output row `i`. Rows come back in scale
/// order: exactly one per scale, each as long as the spectrum whenever the
/// kernel keeps its buffer length. The ghost half of the result records the
/// private copy each row was computed from.
pub fn transform_rows<T: Copy, F: Fn(usize, Vec<T>) -> Vec<T>>(
    spectrum: &Vec<T>,
    count: usize,
    kernel: F,
) -> (out: (Vec<Vec<T>>, Ghost<Seq<Vec<T>>>))
    requires
        forall|i: usize, v: Vec<T>|
            i < count && v@ == spectrum@ ==> #[trigger] call_requires(kernel, (i, v)),
        forall|i: usize, v: Vec<T>, r: Vec<T>|
            #[trigger] call_ensures(kernel, (i, v), r) && v@ == spectrum@ ==> r.len() == v.len(),
    ensures
        out.0.len() == count,
        out.1@.len() == count,
        forall|i: int| 0 <= i < count ==> (#[trigger] out.1@[i])@ == spectrum@,
        forall|i: int|
            0 <= i < count ==> call_ensures(kernel, (i as usize, out.1@[i]), #[trigger] out.0[i]),
        forall|i: int| 0 <= i < count ==> (#[trigger] out.0[i])@.len() == spectrum@.len(),
{
    let mut rows: Vec<Vec<T>> = Vec::new();
    let ghost mut snaps: Seq<Vec<T>> = Seq::empty();
    let mut k: usize = 0;
    while k < count
        invariant
            forall|i: usize, v: Vec<T>|
                i < count && v@ == spectrum@ ==> #[trigger] call_requires(kernel, (i, v)),
            forall|i: usize, v: Vec<T>, r: Vec<T>|
                #[trigger] call_ensures(kernel, (i, v), r) && v@ == spectrum@ ==> r.len()
                    == v.len(),
            k == rows.len() <= count,
            snaps.len() == k,
            forall|i: int| 0 <= i < k ==> (#[trigger] snaps[i])@ == spectrum@,
            forall|i: int|
                0 <= i < k ==> call_ensures(kernel, (i as usize, snaps[i]), #[trigger] rows[i]),
            forall|i: int| 0 <= i < k ==> (#[trigger] rows[i])@.len() == spectrum@.len(),
        decreases count - k,
    {
        let copy = copy_of(spectrum);
        proof {
            snaps = snaps.push(copy);
        }
        let row = kernel(k, copy);
        rows.push(row);
        k = k + 1;
    }
    (rows, Ghost(snaps))
}

} // verus!
