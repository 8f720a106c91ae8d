//! An owned color raster and the arithmetic of row-major pixel addressing.

use vstd::prelude::*;

verus! {

/// An owned color raster: three bytes per pixel (red, green, blue), pixels
/// stored row-major.
pub struct RenderedImage {
    /// Width of the image, in pixels.
    pub width: usize,
    /// Height of the image, in pixels.
    pub height: usize,
    /// The pixel bytes, three per pixel, row-major.
    pub data: Vec<u8>,
}

impl RenderedImage {
    /// The byte length matches the image's geometry.
    pub open spec fn wf(&self) -> bool {
        self.data@.len() == 3 * (self.width * self.height)
    }
}

/// Channel `c` (0 red, 1 green, 2 blue) of the row-major pixel `p` of a
/// raster's bytes.
pub open spec fn channel_at(data: Seq<u8>, p: int, c: int) -> int {
    data[3 * p + c] as int
}

/// Channel `c` of the pixel at column `x`, row `y` of a raster of width `w`.
pub open spec fn channel_at_xy(data: Seq<u8>, w: int, x: int, y: int, c: int) -> int {
    channel_at(data, y * w + x, c)
}

/// The row-major index of an in-bounds cell lies within the raster.
pub proof fn lemma_rowmajor_in_bounds(w: int, h: int, x: int, y: int)
    requires
        0 <= x < w,
        0 <= y < h,
    ensures
        0 <= y * w + x < w * h,
{
    assert(y * w + x < w * h) by (nonlinear_arith)
        requires
            0 <= x < w,
            0 <= y < h,
    ;
}

/// Row-major order: a cell on an earlier row, or earlier in the same row,
/// has the strictly smaller row-major index.
pub proof fn lemma_rowmajor_lt(w: int, x1: int, y1: int, x2: int, y2: int)
    requires
        0 <= x1 < w,
        0 <= x2 < w,
        0 <= y2,
        y2 < y1 || (y2 == y1 && x2 < x1),
    ensures
        y2 * w + x2 < y1 * w + x1,
{
    assert(y2 * w + x2 < y1 * w + x1) by (nonlinear_arith)
        requires
            0 <= x1 < w,
            0 <= x2 < w,
            0 <= y2,
            y2 < y1 || (y2 == y1 && x2 < x1),
    ;
}

} // verus!
