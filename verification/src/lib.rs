//! Verified core of an animated escape-time fractal viewer.
//!
//! The library holds the two pieces with real logic: the mapping from
//! per-pixel iteration counts to packed grayscale pixel values, and a
//! rolling frame timer built on a fixed-capacity ring of frame durations
//! whose running sum is kept exactly in step with its slots.

pub mod render;
pub mod timer;
