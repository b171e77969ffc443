//! Shared vocabulary of the transform: the scale-distribution laws, the
//! error taxonomy, and the integer-valued entry checks. Every failure is
//! reported to the caller at construction or entry time; nothing is clamped
//! silently.

use vstd::prelude::*;

verus! {

/// Scale types selection for a scale-set object: how the scale values are
/// distributed across the requested frequency range.
#[derive(Clone, Copy, PartialEq, Eq, Structural, Debug)]
pub enum ScaleTypes {
    /// Linear in scale space.
    Linear,
    /// Logarithmic in scale space.
    Log,
    /// Linear in frequency.
    LinFreq,
}

/// Everything the transform can refuse at construction or entry time.
#[derive(Clone, Copy, PartialEq, Eq, Structural, Debug)]
pub enum CwtError {
    /// The requested frequency range is not physically representable:
    /// the upper frequency passes Nyquist, or the range is empty.
    InvalidRange,
    /// Zero scales were requested where a division by the count occurs.
    InvalidCount,
    /// The input length does not match the declared signal length.
    DimensionMismatch,
}

/// A scale set must hold at least one scale: the distribution formulas
/// divide by the count. Accepts exactly the positive counts.
pub fn check_scale_count(count: usize) -> (r: Result<(), CwtError>)
    ensures
        r is Ok <==> count > 0,
        count == 0 ==> r == Result::<(), CwtError>::Err(CwtError::InvalidCount),
{
    if count == 0 {
        Err(CwtError::InvalidCount)
    } else {
        Ok(())
    }
}

/// The transform entry declares the signal length it was asked to analyse;
/// the buffer handed in must match it exactly.
pub fn check_signal_length(target_length: usize, input_len: usize) -> (r: Result<
    (),
    CwtError,
>)
    ensures
        r is Ok <==> input_len == target_length,
        input_len != target_length ==> r == Result::<(), CwtError>::Err(
            CwtError::DimensionMismatch,
        ),
{
    if input_len == target_length {
        Ok(())
    } else {
        Err(CwtError::DimensionMismatch)
    }
}

} // verus!
