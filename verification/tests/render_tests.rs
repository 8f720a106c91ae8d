use rtherm::error::PipelineError;
use rtherm::frame::VisibleRegion;
use rtherm::raster::RenderedImage;
use rtherm::render::{amplitude_rescale, convert_visible, render_visible, upscale, yuv_to_rgb};

#[test]
fn neutral_gray_converts_to_gray() {
    // y = u = v = 128: (298 * 112 + 128) / 256 = 130 on every channel
    assert_eq!(yuv_to_rgb(128, 128, 128), (130, 130, 130));
}

#[test]
fn reference_black_converts_to_black() {
    assert_eq!(yuv_to_rgb(16, 128, 128), (0, 0, 0));
}

#[test]
fn reference_white_converts_to_white() {
    assert_eq!(yuv_to_rgb(235, 128, 128), (255, 255, 255));
}

#[test]
fn conversion_clamps_out_of_range_values() {
    // bright luma with extreme chroma-red saturates red at 255
    let (r, _g, _b) = yuv_to_rgb(235, 128, 255);
    assert_eq!(r, 255);
    // dark luma with extreme chroma-blue clamps blue at 0
    let (_r2, _g2, b2) = yuv_to_rgb(16, 0, 128);
    assert_eq!(b2, 0);
}

#[test]
fn convert_visible_decodes_a_yuyv_pair() {
    let region = VisibleRegion { width: 2, height: 1, bytes: vec![16, 128, 235, 128] };
    let img = convert_visible(&region).unwrap();
    assert_eq!((img.width, img.height), (2, 1));
    assert_eq!(img.data, vec![0, 0, 0, 255, 255, 255]);
}

#[test]
fn convert_visible_rejects_an_odd_width() {
    let region = VisibleRegion { width: 3, height: 1, bytes: vec![0u8; 6] };
    assert!(matches!(convert_visible(&region), Err(PipelineError::Conversion)));
}

#[test]
fn convert_visible_rejects_a_wrong_byte_length() {
    let region = VisibleRegion { width: 2, height: 1, bytes: vec![0u8; 5] };
    assert!(matches!(convert_visible(&region), Err(PipelineError::Conversion)));
}

#[test]
fn amplitude_rescale_is_the_identity() {
    let img = RenderedImage { width: 2, height: 1, data: vec![1, 2, 3, 4, 5, 6] };
    let out = amplitude_rescale(&img);
    assert_eq!((out.width, out.height), (2, 1));
    assert_eq!(out.data, img.data);
}

#[test]
fn upscale_replicates_each_pixel_as_a_block() {
    let img = RenderedImage { width: 2, height: 1, data: vec![1, 2, 3, 4, 5, 6] };
    let out = upscale(&img);
    assert_eq!((out.width, out.height), (6, 3));
    assert_eq!(out.data.len(), 54);
    for y in 0..3usize {
        for x in 0..6usize {
            let base = 3 * (y * 6 + x);
            let expected: [u8; 3] = if x < 3 { [1, 2, 3] } else { [4, 5, 6] };
            assert_eq!(out.data[base], expected[0]);
            assert_eq!(out.data[base + 1], expected[1]);
            assert_eq!(out.data[base + 2], expected[2]);
        }
    }
}

#[test]
fn rendered_dimensions_are_three_times_the_region() {
    let region = VisibleRegion { width: 256, height: 192, bytes: vec![128u8; 2 * 256 * 192] };
    let img = render_visible(&region).unwrap();
    assert_eq!((img.width, img.height), (768, 576));
    assert_eq!(img.data.len(), 3 * 768 * 576);
}

#[test]
fn rendered_dimensions_scale_any_valid_region() {
    let region = VisibleRegion { width: 8, height: 5, bytes: vec![128u8; 2 * 8 * 5] };
    let img = render_visible(&region).unwrap();
    assert_eq!((img.width, img.height), (24, 15));
}
