//! The per-frame pipeline: split the frame, decode the thermal half, locate
//! the peak, render the visible half, and compose the heatmap.

use vstd::prelude::*;

use crate::compositor::compose_heatmap;
use crate::config::{GRID_HEIGHT, GRID_WIDTH, UPSCALE};
use crate::error::PipelineError;
use crate::frame::{split_frame, RawFrame};
use crate::peak::{find_peak, PeakPoint};
use crate::raster::{lemma_rowmajor_in_bounds, RenderedImage};
use crate::render::render_visible;
use crate::thermal::{decode_thermal, decoded_temps, raw_of, temp_units_of};

verus! {

/// The byte offset of the thermal region in a splittable frame: the visible
/// half occupies the first `width * height` bytes.
pub open spec fn thermal_offset(frame: RawFrame) -> int {
    frame.width * frame.height
}

/// The temperature (in temperature units) encoded by thermal sample `i` of
/// a splittable frame, in row-major order over the thermal region.
pub open spec fn frame_temp(frame: RawFrame, i: int) -> int {
    temp_units_of(
        raw_of(
            frame.bytes@[thermal_offset(frame) + 2 * i],
            frame.bytes@[thermal_offset(frame) + 2 * i + 1],
        ),
    )
}

/// A frame the pipeline accepts: the supported device's geometry
/// ([`GRID_WIDTH`] wide, twice [`GRID_HEIGHT`] tall, the thermal half below
/// the visible half) with a matching byte length.
pub open spec fn frame_processable(frame: RawFrame) -> bool {
    &&& frame.width == GRID_WIDTH
    &&& frame.height == 2 * GRID_HEIGHT
    &&& frame.bytes@.len() == 2 * frame.width * frame.height
}

/// Runs the whole per-frame pipeline and returns the composed heatmap and
/// the peak point.
///
/// Succeeds exactly on processable frames: any other geometry — odd height,
/// zero dimensions, a byte length that does not match, or dimensions other
/// than the supported device's — fails with `Geometry` and nothing is
/// truncated or guessed. On success the heatmap is [`UPSCALE`] times the
/// visible region in each axis and the peak is the first maximal cell of
/// the thermal grid in row-major order.
#[verifier::rlimit(60)]
pub fn process_frame(frame: &RawFrame) -> (r: Result<(RenderedImage, PeakPoint), PipelineError>)
    ensures
        r is Ok <==> frame_processable(*frame),
        r matches Err(e) ==> e == PipelineError::Geometry,
        r matches Ok(out) ==> {
            &&& out.0.wf()
            &&& out.0.width == UPSCALE * frame.width
            &&& out.0.height == UPSCALE * (frame.height / 2)
            &&& out.1.x < frame.width
            &&& out.1.y < frame.height / 2
            &&& out.1.temp == frame_temp(*frame, out.1.y * frame.width + out.1.x)
            &&& forall|i: int|
                0 <= i < frame.width * (frame.height / 2) ==> frame_temp(*frame, i) <= out.1.temp
            &&& forall|i: int|
                0 <= i < out.1.y * frame.width + out.1.x ==> frame_temp(*frame, i) < out.1.temp
        },
{
    let w = frame.width;
    let h = frame.height;
    if w != GRID_WIDTH || h != 2 * GRID_HEIGHT {
        return Err(PipelineError::Geometry);
    }
    let (visible, thermal) = match split_frame(frame) {
        Ok(halves) => halves,
        Err(_) => {
            return Err(PipelineError::Geometry);
        },
    };
    proof {
        assert(2 * (w * ((h as int) / 2)) == w * h) by (nonlinear_arith)
            requires
                h % 2 == 0,
        ;
    }
    let grid = match decode_thermal(&thermal) {
        Ok(g) => g,
        Err(_) => {
            return Err(PipelineError::Geometry);
        },
    };
    let peak = match find_peak(&grid) {
        Ok(p) => p,
        Err(_) => {
            return Err(PipelineError::Geometry);
        },
    };
    proof {
        let half = (h as int) / 2;
        assert forall|i: int| 0 <= i < w * half implies grid.temps@[i] == frame_temp(
            *frame,
            i,
        ) by {
            assert(0 <= 2 * i && 2 * i + 1 < w * h);
            assert(thermal.bytes@[2 * i] == frame.bytes@[w * h + 2 * i]);
            assert(thermal.bytes@[2 * i + 1] == frame.bytes@[w * h + 2 * i + 1]);
            assert(grid.temps@[i] == decoded_temps(thermal.bytes@)[i]);
        }
        lemma_rowmajor_in_bounds(w as int, half, peak.x as int, peak.y as int);
    }
    let mut image = match render_visible(&visible) {
        Ok(img) => img,
        Err(_) => {
            return Err(PipelineError::Geometry);
        },
    };
    compose_heatmap(&mut image, &peak);
    Ok((image, peak))
}

} // verus!
