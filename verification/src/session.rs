//! The capture session: the loop's decisions as a verified state machine.
//!
//! The surrounding binary owns the device and the window; this module owns
//! every decision. Each tick the binary reports what happened as a
//! [`CaptureEvent`], and [`capture_step`] answers with the next state and
//! the next [`CaptureAction`] to perform. The failure policy is fatal: a
//! read failure or a pipeline failure ends the run with a report; only an
//! empty frame (a transient device hiccup) is skipped and retried.

use vstd::prelude::*;

use crate::error::PipelineError;
use crate::frame::RawFrame;
use crate::peak::PeakPoint;
use crate::pipeline::{frame_processable, frame_temp, process_frame};
use crate::raster::RenderedImage;

verus! {

/// Where the capture session stands.
#[derive(Clone, Copy, Debug, PartialEq, Eq, Structural)]
pub enum SessionState {
    /// No device is open yet.
    Disconnected,
    /// The device is open and frames are being processed.
    Connected,
    /// The run is over: the device is released or was never opened.
    Stopped,
}

/// What the surrounding loop observed since the last step.
pub enum CaptureEvent {
    /// The device was opened and reports itself open.
    Opened,
    /// The device could not be opened or does not report itself open.
    OpenFailed,
    /// A raw frame was read from the device.
    FrameRead(RawFrame),
    /// The device returned an empty frame.
    FrameEmpty,
    /// Reading from the device failed.
    ReadFailed,
    /// The presentation sink reported a user stop signal.
    StopRequested,
}

/// What the surrounding loop must do next.
pub enum CaptureAction {
    /// Try to open the device at the configured path.
    Open,
    /// Block until the next frame or stop signal and report what happened.
    Read,
    /// Show the composed heatmap, then poll for input and read again.
    Present(RenderedImage, PeakPoint),
    /// End the run reporting that the device could not be opened.
    AbortOpen,
    /// End the run reporting that a read failed.
    AbortRead,
    /// End the run reporting a pipeline failure on a malformed frame.
    AbortPipeline(PipelineError),
    /// Release the device and end the run cleanly.
    Release,
    /// The run is already over; nothing is left to do.
    Halt,
}

/// Advances the session by one step.
///
/// The whole transition table is stated below: connection events move
/// `Disconnected` to `Connected` or end the run; a read frame runs the
/// pipeline and is presented, a malformed one ends the run (fatal policy);
/// an empty frame is skipped; a stop signal releases the device.
pub fn capture_step(state: SessionState, event: CaptureEvent) -> (r: (
    SessionState,
    CaptureAction,
))
    ensures
        state is Disconnected && event is Opened ==> r.0 is Connected && r.1 is Read,
        state is Disconnected && event is OpenFailed ==> r.0 is Stopped && r.1 is AbortOpen,
        state is Disconnected && !(event is Opened) && !(event is OpenFailed) ==> r.0
            is Disconnected && r.1 is Open,
        state is Connected && event is StopRequested ==> r.0 is Stopped && r.1 is Release,
        state is Connected && event is FrameEmpty ==> r.0 is Connected && r.1 is Read,
        state is Connected && event is ReadFailed ==> r.0 is Stopped && r.1 is AbortRead,
        state is Connected && (event is Opened || event is OpenFailed) ==> r.0 is Connected && r.1
            is Read,
        state is Stopped ==> r.0 is Stopped && r.1 is Halt,
        state is Connected ==> (event matches CaptureEvent::FrameRead(f) ==> {
            &&& frame_processable(f) <==> r.1 is Present
            &&& frame_processable(f) ==> r.0 is Connected
            &&& !frame_processable(f) ==> r.0 is Stopped && (r.1 matches
            CaptureAction::AbortPipeline(e) && e == PipelineError::Geometry)
            &&& r.1 matches CaptureAction::Present(img, peak) ==> {
                &&& img.wf()
                &&& img.width == crate::config::UPSCALE * f.width
                &&& img.height == crate::config::UPSCALE * (f.height / 2)
                &&& peak.x < f.width
                &&& peak.y < f.height / 2
                &&& peak.temp == frame_temp(f, peak.y * f.width + peak.x)
                &&& forall|i: int|
                    0 <= i < f.width * (f.height / 2) ==> frame_temp(f, i) <= peak.temp
                &&& forall|i: int|
                    0 <= i < peak.y * f.width + peak.x ==> frame_temp(f, i) < peak.temp
            }
        }),
{
    match state {
        SessionState::Disconnected => match event {
            CaptureEvent::Opened => (SessionState::Connected, CaptureAction::Read),
            CaptureEvent::OpenFailed => (SessionState::Stopped, CaptureAction::AbortOpen),
            _ => (SessionState::Disconnected, CaptureAction::Open),
        },
        SessionState::Connected => match event {
            CaptureEvent::StopRequested => (SessionState::Stopped, CaptureAction::Release),
            CaptureEvent::FrameEmpty => (SessionState::Connected, CaptureAction::Read),
            CaptureEvent::ReadFailed => (SessionState::Stopped, CaptureAction::AbortRead),
            CaptureEvent::Opened => (SessionState::Connected, CaptureAction::Read),
            CaptureEvent::OpenFailed => (SessionState::Connected, CaptureAction::Read),
            CaptureEvent::FrameRead(f) => match process_frame(&f) {
                Ok((img, peak)) => (
                    SessionState::Connected,
                    CaptureAction::Present(img, peak),
                ),
                Err(e) => (SessionState::Stopped, CaptureAction::AbortPipeline(e)),
            },
        },
        SessionState::Stopped => (SessionState::Stopped, CaptureAction::Halt),
    }
}

} // verus!
