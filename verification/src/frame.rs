//! The raw captured frame and its split into visible and thermal regions.

use vstd::prelude::*;

use crate::config::BYTES_PER_PIXEL;
use crate::error::PipelineError;

verus! {

/// One full buffer read from the capture source: two vertically stacked
/// sub-images of equal width and half the total height each, two bytes per
/// pixel, rows stored top to bottom.
pub struct RawFrame {
    /// Width of the frame, in pixels.
    pub width: usize,
    /// Total height of the frame, in rows; the upper half is the visible
    /// region and the lower half the thermal region.
    pub height: usize,
    /// The frame's bytes, row-major, two bytes per pixel.
    pub bytes: Vec<u8>,
}

impl RawFrame {
    /// The frame can be split: positive dimensions, an even height, and a
    /// byte length that matches the declared geometry.
    pub open spec fn splittable(&self) -> bool {
        &&& self.width > 0
        &&& self.height > 0
        &&& self.height % 2 == 0
        &&& self.bytes@.len() == 2 * self.width * self.height
    }
}

/// The upper half of a frame: an interleaved luma/chroma (YUYV) color image,
/// two bytes per pixel.
pub struct VisibleRegion {
    /// Width of the region, in pixels.
    pub width: usize,
    /// Height of the region, in rows.
    pub height: usize,
    /// The region's bytes, row-major.
    pub bytes: Vec<u8>,
}

impl VisibleRegion {
    /// The byte length matches the region's geometry.
    pub open spec fn wf(&self) -> bool {
        self.bytes@.len() == 2 * self.width * self.height
    }
}

/// The lower half of a frame: raw thermal samples, two bytes per sample.
pub struct ThermalRegion {
    /// Width of the region, in samples.
    pub width: usize,
    /// Height of the region, in rows.
    pub height: usize,
    /// The region's bytes, row-major, two bytes per sample.
    pub bytes: Vec<u8>,
}

impl ThermalRegion {
    /// The byte length matches the region's geometry.
    pub open spec fn wf(&self) -> bool {
        self.bytes@.len() == 2 * self.width * self.height
    }
}

/// Decides whether `len` equals `2 * width * height`, without overflow for
/// any arguments.
pub fn byte_len_matches(len: usize, width: usize, height: usize) -> (b: bool)
    ensures
        b <==> len == 2 * width * height,
{
    proof {
        assert((width as u128) * (height as u128) <= 0xffff_ffff_ffff_ffff_ffff_ffff_ffff_ffffu128)
            by (nonlinear_arith)
            requires
                width <= 0xffff_ffff_ffff_ffffu128,
                height <= 0xffff_ffff_ffff_ffffu128,
        ;
        assert(2 * (width * height) == 2 * width * height) by (nonlinear_arith);
    }
    let prod: u128 = (width as u128) * (height as u128);
    if prod > (usize::MAX as u128) / 2 {
        proof {
            assert(2 * prod > usize::MAX);
            assert(len < 2 * (width * height));
        }
        false
    } else {
        let need: usize = BYTES_PER_PIXEL * (width * height);
        len == need
    }
}

/// Partitions a raw frame into its visible upper half (rows `[0, H/2)`) and
/// thermal lower half (rows `[H/2, H)`), both full width.
///
/// Fails with `PipelineError::Geometry` exactly when the frame is not
/// splittable: zero width or height, odd height, or a byte length that does
/// not match the geometry. Never truncates: on success the two regions
/// together carry every byte of the frame.
pub fn split_frame(frame: &RawFrame) -> (r: Result<(VisibleRegion, ThermalRegion), PipelineError>)
    ensures
        r is Ok <==> frame.splittable(),
        r matches Err(e) ==> e == PipelineError::Geometry,
        r matches Ok(halves) ==> {
            &&& halves.0.width == frame.width
            &&& halves.0.height == frame.height / 2
            &&& halves.0.wf()
            &&& halves.0.bytes@ == frame.bytes@.subrange(0, frame.width * frame.height)
            &&& halves.1.width == frame.width
            &&& halves.1.height == frame.height / 2
            &&& halves.1.wf()
            &&& halves.1.bytes@ == frame.bytes@.subrange(
                frame.width * frame.height,
                2 * frame.width * frame.height,
            )
        },
{
    let w = frame.width;
    let h = frame.height;
    if w == 0 || h == 0 || h % 2 != 0 {
        return Err(PipelineError::Geometry);
    }
    if !byte_len_matches(frame.bytes.len(), w, h) {
        return Err(PipelineError::Geometry);
    }
    let half_h = h / 2;
    // each half holds 2 * w * (h / 2) == w * h bytes
    let half_bytes: usize = frame.bytes.len() / 2;
    proof {
        assert(2 * (w * h) == 2 * w * h) by (nonlinear_arith);
        assert(half_bytes == w * h);
        assert(2 * w * ((h as int) / 2) == w * h) by (nonlinear_arith)
            requires h % 2 == 0,
        ;
    }
    let mut vis: Vec<u8> = Vec::new();
    let mut i: usize = 0;
    while i < half_bytes
        invariant
            i <= half_bytes,
            vis@.len() == i,
            forall|j: int| 0 <= j < i ==> vis@[j] == frame.bytes@[j],
        decreases half_bytes - i,
    {
        vis.push(frame.bytes[i]);
        i += 1;
    }
    let mut th: Vec<u8> = Vec::new();
    let mut k: usize = 0;
    while k < half_bytes
        invariant
            k <= half_bytes,
            th@.len() == k,
            forall|j: int| 0 <= j < k ==> th@[j] == frame.bytes@[half_bytes + j],
        decreases half_bytes - k,
    {
        th.push(frame.bytes[half_bytes + k]);
        k += 1;
    }
    proof {
        assert(vis@ =~= frame.bytes@.subrange(0, w * h));
        assert(th@ =~= frame.bytes@.subrange(w * h, 2 * w * h));
    }
    Ok((
        VisibleRegion { width: w, height: half_h, bytes: vis },
        ThermalRegion { width: w, height: half_h, bytes: th },
    ))
}

} // verus!
