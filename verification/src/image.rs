//! Geometry of the downscale transformation.
//!
//! Before upload an image may be downscaled: the pixel dimensions shrink by a
//! fixed factor, with a floor of one pixel in each direction so that even a
//! tiny input yields a valid image. The decode / resample / re-encode work is
//! done by an image codec in the surrounding binary; this module fixes the
//! target dimensions it must use.

use vstd::prelude::*;

verus! {

/// Each pixel dimension is divided by this factor (rounding down).
pub const DOWNSCALE_FACTOR: usize = 5;

/// The dimension a downscaled image has along one axis: a fifth of the
/// original, rounded down, but never less than one pixel.
pub open spec fn spec_downscaled(d: usize) -> usize {
    if d / 5 == 0 {
        1usize
    } else {
        d / 5
    }
}

/// Target pixel dimensions for downscaling an image of `width` x `height`.
pub fn downscale_dims(width: usize, height: usize) -> (r: (usize, usize))
    ensures
        r.0 == spec_downscaled(width),
        r.1 == spec_downscaled(height),
{
    let w = width / DOWNSCALE_FACTOR;
    let h = height / DOWNSCALE_FACTOR;
    (if w == 0 { 1 } else { w }, if h == 0 { 1 } else { h })
}

} // verus!
