use rtherm::error::PipelineError;
use rtherm::frame::{byte_len_matches, split_frame, RawFrame};

#[test]
fn split_partitions_rows_between_the_halves() {
    let bytes: Vec<u8> = (0u8..16).collect();
    let frame = RawFrame { width: 4, height: 2, bytes };
    let (vis, th) = split_frame(&frame).unwrap();
    assert_eq!((vis.width, vis.height), (4, 1));
    assert_eq!((th.width, th.height), (4, 1));
    assert_eq!(vis.bytes, (0u8..8).collect::<Vec<u8>>());
    assert_eq!(th.bytes, (8u8..16).collect::<Vec<u8>>());
}

#[test]
fn odd_height_fails_with_geometry_error() {
    let frame = RawFrame { width: 4, height: 3, bytes: vec![0u8; 24] };
    let r = split_frame(&frame);
    assert!(matches!(r, Err(PipelineError::Geometry)));
}

#[test]
fn zero_width_fails_with_geometry_error() {
    let frame = RawFrame { width: 0, height: 2, bytes: Vec::new() };
    assert!(matches!(split_frame(&frame), Err(PipelineError::Geometry)));
}

#[test]
fn zero_height_fails_with_geometry_error() {
    let frame = RawFrame { width: 4, height: 0, bytes: Vec::new() };
    assert!(matches!(split_frame(&frame), Err(PipelineError::Geometry)));
}

#[test]
fn byte_length_mismatch_fails_with_geometry_error() {
    let frame = RawFrame { width: 4, height: 2, bytes: vec![0u8; 15] };
    assert!(matches!(split_frame(&frame), Err(PipelineError::Geometry)));
}

#[test]
fn byte_len_matches_checks_two_bytes_per_pixel() {
    assert!(byte_len_matches(16, 4, 2));
    assert!(!byte_len_matches(15, 4, 2));
    assert!(byte_len_matches(0, 0, 7));
    assert!(!byte_len_matches(usize::MAX, usize::MAX, usize::MAX));
}
