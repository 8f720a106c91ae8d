//! Fixed geometry of the supported device and of the rendering stage.

use vstd::prelude::*;

verus! {

/// Width of the thermal grid, in samples (also the frame width, in pixels).
pub const GRID_WIDTH: usize = 256;

/// Height of the thermal grid, in samples (half of the full frame height).
pub const GRID_HEIGHT: usize = 192;

/// Every pixel of both regions occupies two bytes in the raw frame.
pub const BYTES_PER_PIXEL: usize = 2;

/// Uniform upscale factor applied by the renderer in both axes.
pub const UPSCALE: usize = 3;

/// Half-length of each crosshair segment, in thermal-grid units.
pub const CROSSHAIR_HALF_LEN: usize = 5;

/// Stroke width of the crosshair segments, in rendered-image pixels.
pub const CROSSHAIR_STROKE: usize = 3;

} // verus!
