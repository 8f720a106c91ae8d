use rtherm::compositor::{
    apply_palette, crosshair_segments, draw_crosshair, fill_rect, hot_color, pixel_luminance,
};
use rtherm::peak::PeakPoint;
use rtherm::raster::RenderedImage;

#[test]
fn hot_ramp_runs_black_red_yellow_white() {
    assert_eq!(hot_color(0), (0, 0, 0));
    assert_eq!(hot_color(85), (255, 0, 0));
    assert_eq!(hot_color(170), (255, 255, 0));
    assert_eq!(hot_color(255), (255, 255, 255));
}

#[test]
fn luminance_uses_the_standard_weights() {
    assert_eq!(pixel_luminance(0, 0, 0), 0);
    assert_eq!(pixel_luminance(255, 255, 255), 255);
    assert_eq!(pixel_luminance(255, 0, 0), 76);
    assert_eq!(pixel_luminance(0, 255, 0), 149);
}

#[test]
fn palette_maps_each_pixel_by_its_luminance() {
    let img = RenderedImage { width: 2, height: 1, data: vec![0, 0, 0, 255, 255, 255] };
    let out = apply_palette(&img);
    assert_eq!(out.data, vec![0, 0, 0, 255, 255, 255]);
}

#[test]
fn crosshair_start_clamps_to_zero_at_the_left_edge() {
    // peak at column 0: the pre-scale start is 0, not negative
    let (h, _v) = crosshair_segments(&PeakPoint { x: 0, y: 10, temp: 0 });
    assert_eq!(h.x0, 0);
    assert_eq!(h.x1, 3 * 5);
    assert_eq!(h.y0, 30);
}

#[test]
fn crosshair_end_clamps_to_the_grid_width_at_the_right_edge() {
    // peak at column 255: the pre-scale end is the grid width 256
    let (h, _v) = crosshair_segments(&PeakPoint { x: 255, y: 10, temp: 0 });
    assert_eq!(h.x0, 3 * 250);
    assert_eq!(h.x1, 3 * 256);
}

#[test]
fn crosshair_clamps_vertically_at_both_edges() {
    let (_h, v) = crosshair_segments(&PeakPoint { x: 10, y: 0, temp: 0 });
    assert_eq!(v.y0, 0);
    assert_eq!(v.y1, 3 * 5);
    let (_h2, v2) = crosshair_segments(&PeakPoint { x: 10, y: 191, temp: 0 });
    assert_eq!(v2.y0, 3 * 186);
    assert_eq!(v2.y1, 3 * 192);
}

#[test]
fn crosshair_is_centered_away_from_edges() {
    let (h, v) = crosshair_segments(&PeakPoint { x: 100, y: 50, temp: 0 });
    assert_eq!((h.x0, h.x1, h.y0, h.y1), (285, 315, 150, 150));
    assert_eq!((v.x0, v.x1, v.y0, v.y1), (300, 300, 135, 165));
}

#[test]
fn fill_rect_paints_exactly_the_rectangle() {
    let mut img = RenderedImage { width: 4, height: 3, data: vec![9u8; 36] };
    fill_rect(&mut img, 1, 3, 1, 2, 7, 8, 6);
    for y in 0..3usize {
        for x in 0..4usize {
            let base = 3 * (y * 4 + x);
            if (1..3).contains(&x) && y == 1 {
                assert_eq!(&img.data[base..base + 3], &[7, 8, 6]);
            } else {
                assert_eq!(&img.data[base..base + 3], &[9, 9, 9]);
            }
        }
    }
}

#[test]
fn crosshair_footprint_is_exactly_red() {
    let w = 768usize;
    let h = 576usize;
    let mut img = RenderedImage { width: w, height: h, data: vec![9u8; 3 * w * h] };
    let peak = PeakPoint { x: 10, y: 10, temp: 0 };
    draw_crosshair(&mut img, &peak);
    for y in 0..h {
        for x in 0..w {
            let base = 3 * (y * w + x);
            let in_horizontal = (15..=45).contains(&x) && (29..=31).contains(&y);
            let in_vertical = (29..=31).contains(&x) && (15..=45).contains(&y);
            if in_horizontal || in_vertical {
                assert_eq!(&img.data[base..base + 3], &[255, 0, 0]);
            } else {
                assert_eq!(&img.data[base..base + 3], &[9, 9, 9]);
            }
        }
    }
}
