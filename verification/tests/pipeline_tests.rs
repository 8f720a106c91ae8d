use rtherm::argparse::Args;
use rtherm::error::PipelineError;
use rtherm::frame::RawFrame;
use rtherm::pipeline::process_frame;
use rtherm::session::{capture_step, CaptureAction, CaptureEvent, SessionState};
use rtherm::thermal::OFFSET_UNITS;

/// A full synthetic device frame: a uniform neutral-gray visible half and a
/// uniform thermal half with one hot sample of the given raw value.
fn synthetic_frame(hot_x: usize, hot_y: usize, hot_raw: u16) -> RawFrame {
    let w = 256usize;
    let h = 384usize;
    let mut bytes = vec![128u8; w * h];  // visible half: y = u = v = 128
    let mut thermal = Vec::new();
    for i in 0..(w * (h / 2)) {
        let raw: u16 = if i == hot_y * w + hot_x { hot_raw } else { 1000 };
        thermal.push((raw % 256) as u8);
        thermal.push((raw / 256) as u8);
    }
    bytes.extend(thermal);
    RawFrame { width: w, height: h, bytes }
}

#[test]
fn end_to_end_heatmap_has_red_only_in_the_crosshair() {
    let frame = synthetic_frame(10, 10, 20000);
    let (img, peak) = process_frame(&frame).unwrap();
    assert_eq!((peak.x, peak.y), (10, 10));
    assert_eq!(peak.temp, 20000 * 100 - OFFSET_UNITS);
    assert_eq!((img.width, img.height), (768, 576));
    assert!(!img.data.is_empty());
    let mut red_pixels = 0usize;
    for y in 0..576usize {
        for x in 0..768usize {
            let base = 3 * (y * 768 + x);
            let is_red = img.data[base] == 255 && img.data[base + 1] == 0
                && img.data[base + 2] == 0;
            let in_horizontal = (15..=45).contains(&x) && (29..=31).contains(&y);
            let in_vertical = (29..=31).contains(&x) && (15..=45).contains(&y);
            assert_eq!(is_red, in_horizontal || in_vertical);
            if is_red {
                red_pixels += 1;
            }
        }
    }
    assert!(red_pixels > 0);
}

#[test]
fn pipeline_rejects_an_odd_height_frame() {
    let frame = RawFrame { width: 256, height: 383, bytes: vec![0u8; 2 * 256 * 383] };
    assert!(matches!(process_frame(&frame), Err(PipelineError::Geometry)));
}

#[test]
fn pipeline_rejects_a_foreign_geometry() {
    let frame = RawFrame { width: 128, height: 96, bytes: vec![0u8; 2 * 128 * 96] };
    assert!(matches!(process_frame(&frame), Err(PipelineError::Geometry)));
}

#[test]
fn pipeline_rejects_a_byte_length_mismatch() {
    let frame = RawFrame { width: 256, height: 384, bytes: vec![0u8; 7] };
    assert!(matches!(process_frame(&frame), Err(PipelineError::Geometry)));
}

#[test]
fn session_connects_when_the_device_opens() {
    let (s, a) = capture_step(SessionState::Disconnected, CaptureEvent::Opened);
    assert_eq!(s, SessionState::Connected);
    assert!(matches!(a, CaptureAction::Read));
}

#[test]
fn session_aborts_when_the_device_cannot_open() {
    let (s, a) = capture_step(SessionState::Disconnected, CaptureEvent::OpenFailed);
    assert_eq!(s, SessionState::Stopped);
    assert!(matches!(a, CaptureAction::AbortOpen));
}

#[test]
fn session_keeps_asking_to_open_while_disconnected() {
    let (s, a) = capture_step(SessionState::Disconnected, CaptureEvent::FrameEmpty);
    assert_eq!(s, SessionState::Disconnected);
    assert!(matches!(a, CaptureAction::Open));
}

#[test]
fn session_skips_an_empty_frame() {
    let (s, a) = capture_step(SessionState::Connected, CaptureEvent::FrameEmpty);
    assert_eq!(s, SessionState::Connected);
    assert!(matches!(a, CaptureAction::Read));
}

#[test]
fn session_read_failure_is_fatal() {
    let (s, a) = capture_step(SessionState::Connected, CaptureEvent::ReadFailed);
    assert_eq!(s, SessionState::Stopped);
    assert!(matches!(a, CaptureAction::AbortRead));
}

#[test]
fn session_stop_signal_releases_the_device() {
    let (s, a) = capture_step(SessionState::Connected, CaptureEvent::StopRequested);
    assert_eq!(s, SessionState::Stopped);
    assert!(matches!(a, CaptureAction::Release));
}

#[test]
fn session_presents_a_processed_frame() {
    let frame = synthetic_frame(10, 10, 20000);
    let (s, a) = capture_step(SessionState::Connected, CaptureEvent::FrameRead(frame));
    assert_eq!(s, SessionState::Connected);
    match a {
        CaptureAction::Present(img, peak) => {
            assert_eq!((img.width, img.height), (768, 576));
            assert_eq!((peak.x, peak.y), (10, 10));
        },
        _ => panic!("expected a presentation action"),
    }
}

#[test]
fn session_malformed_frame_is_fatal() {
    let frame = RawFrame { width: 256, height: 383, bytes: vec![0u8; 2 * 256 * 383] };
    let (s, a) = capture_step(SessionState::Connected, CaptureEvent::FrameRead(frame));
    assert_eq!(s, SessionState::Stopped);
    assert!(matches!(a, CaptureAction::AbortPipeline(PipelineError::Geometry)));
}

#[test]
fn session_is_inert_once_stopped() {
    let (s, a) = capture_step(SessionState::Stopped, CaptureEvent::Opened);
    assert_eq!(s, SessionState::Stopped);
    assert!(matches!(a, CaptureAction::Halt));
}

#[test]
fn args_carry_the_device_path() {
    let args = Args { device: String::from("/dev/video4") };
    assert_eq!(args.device, "/dev/video4");
}
