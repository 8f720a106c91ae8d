//! Error kinds of the per-frame pipeline.

use vstd::prelude::*;

verus! {

/// Why a pipeline stage rejected its input.
#[derive(Clone, Copy, Debug, PartialEq, Eq, Structural)]
pub enum PipelineError {
    /// The frame's declared geometry is unusable: zero width or height, an
    /// odd height, or a byte length that does not match the geometry.
    Geometry,
    /// The thermal region's byte length is not two bytes per sample.
    Decode,
    /// The visible region cannot be color-converted: its byte length is not
    /// two bytes per pixel, or its width is odd (the interleaved 4:2:2 layout
    /// pairs adjacent pixels).
    Conversion,
    /// The temperature grid holds no cells, so it has no peak.
    EmptyGrid,
}

impl PipelineError {
    /// A short human-readable name for the error, for use by callers that
    /// report failures.
    pub fn describe(&self) -> (r: &'static str)
        ensures
            r@ == match *self {
                PipelineError::Geometry => "unusable frame geometry"@,
                PipelineError::Decode => "thermal region length mismatch"@,
                PipelineError::Conversion => "visible region length mismatch"@,
                PipelineError::EmptyGrid => "temperature grid is empty"@,
            },
    {
        match self {
            PipelineError::Geometry => "unusable frame geometry",
            PipelineError::Decode => "thermal region length mismatch",
            PipelineError::Conversion => "visible region length mismatch",
            PipelineError::EmptyGrid => "temperature grid is empty",
        }
    }
}

} // verus!
