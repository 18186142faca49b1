//! Pixel coloring and coordinate mapping for the escape-time renderer.
//!
//! The floating-point iteration itself produces, for every pixel, an
//! iteration count `n` in `[0, FRACTAL_DEPTH]`; everything this module does
//! is an exact function of such counts and of integer pixel indices.

use vstd::prelude::*;

verus! {

/// Upper bound on the number of quadratic steps applied to a pixel's point
/// before it is declared trapped.
pub const FRACTAL_DEPTH: u32 = 32;

/// The packed grayscale value stored for an iteration count `n`: pixels
/// that reached the depth cap stay black, every other count is spread over
/// the gray scale as `(n * 32) % 255`.
pub open spec fn fill_spec(n: u32) -> u32 {
    if n == FRACTAL_DEPTH {
        0u32
    } else {
        (((n * 32) % 255) as u32)
    }
}

/// Map an iteration count to the pixel value that is written to the buffer.
pub fn fill(n: u32) -> (r: u32)
    requires
        n <= FRACTAL_DEPTH,
    ensures
        r == fill_spec(n),
{
    if FRACTAL_DEPTH == n {
        0
    } else {
        n * 32 % 255
    }
}

/// Every stored pixel value is either exactly zero (the depth cap) or the
/// spread value `(n * 32) % 255`, which lies strictly below 255.
pub proof fn lemma_fill_range(n: u32)
    requires
        n <= FRACTAL_DEPTH,
    ensures
        n == FRACTAL_DEPTH ==> fill_spec(n) == 0,
        n < FRACTAL_DEPTH ==> fill_spec(n) == (n * 32) % 255,
        fill_spec(n) == 0 || (0 < fill_spec(n) < 255),
{
}

/// Split a linear pixel index into a (column, row) pair. The column is the
/// index modulo the width; the row divides by the *height*, a deliberate
/// quirk that yields the usual row-major row only when the grid is square.
/// The viewer always renders square grids, so the quirk is harmless there.
pub fn pixel_coords(i: usize, width: usize, height: usize) -> (rc: (usize, usize))
    requires
        width > 0,
        height > 0,
    ensures
        rc.0 == i % width,
        rc.1 == i / height,
{
    (i % width, i / height)
}

/// Overwrite a pixel buffer in place with the pixel value for each entry of
/// a per-pixel iteration-count sequence of the same length.
pub fn fill_buffer(buffer: &mut Vec<u32>, counts: &Vec<u32>)
    requires
        old(buffer).len() == counts.len(),
        forall|j: int| 0 <= j < counts@.len() ==> counts@[j] <= FRACTAL_DEPTH,
    ensures
        final(buffer)@.len() == counts@.len(),
        forall|j: int| 0 <= j < counts@.len() ==> final(buffer)@[j] == fill_spec(counts@[j]),
{
    let total: usize = counts.len();
    let mut i: usize = 0;
    while i < total
        invariant
            total == counts@.len(),
            buffer@.len() == total,
            i <= total,
            forall|j: int| 0 <= j < counts@.len() ==> counts@[j] <= FRACTAL_DEPTH,
            forall|j: int| 0 <= j < i ==> buffer@[j] == fill_spec(counts@[j]),
        decreases total - i,
    {
        let v: u32 = fill(counts[i]);
        buffer.set(i, v);
        i += 1;
    }
}

} // verus!
