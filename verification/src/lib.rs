//! Integer and structural core of a continuous wavelet transform (CWT)
//! pipeline: power-of-two sizing of the FFT working buffer, zero-padding,
//! spectrum mirroring, per-scale fan-out of the shared spectrum, thread-batch
//! partitioning, and input validation. The floating-point kernels (Morlet
//! envelope, scale arrays, FFT calls) live outside the verified core, since
//! the verifier does not take floating-point values; they are built on top of
//! the functions proved here.

pub mod partition;
pub mod sizing;
pub mod spectrum;
pub mod types;

pub use partition::batch_bounds;
pub use partition::ceil_div;
pub use sizing::find2power;
pub use sizing::next_pow2;
pub use spectrum::mirror_spectrum;
pub use spectrum::pad_to;
pub use spectrum::transform_rows;
pub use types::check_scale_count;
pub use types::check_signal_length;
pub use types::CwtError;
pub use types::ScaleTypes;
