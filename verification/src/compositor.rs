//! The heatmap compositor: the false-color palette and the crosshair
//! overlay on the peak.

use vstd::prelude::*;

use crate::config::{CROSSHAIR_HALF_LEN, CROSSHAIR_STROKE, GRID_HEIGHT, GRID_WIDTH, UPSCALE};
use crate::peak::PeakPoint;
use crate::raster::{
    channel_at, channel_at_xy, lemma_rowmajor_in_bounds, lemma_rowmajor_lt, RenderedImage,
};
use crate::render::clamp_byte;

verus! {

/// The luminance of an `(R, G, B)` pixel, with the common integer BT.601
/// weights.
pub open spec fn luminance(r: int, g: int, b: int) -> int {
    (299 * r + 587 * g + 114 * b) / 1000
}

/// Channel `c` of the hot false-color ramp at intensity `s`: black at 0,
/// rising through red and yellow to white at 255.
pub open spec fn hot_channel(s: int, c: int) -> int {
    if c == 0 {
        clamp_byte(3 * s)
    } else if c == 1 {
        clamp_byte(3 * s - 255)
    } else {
        clamp_byte(3 * s - 510)
    }
}

/// Channel `c` of the palette color of a source pixel `(r, g, b)`: the hot
/// ramp applied to the pixel's luminance.
pub open spec fn palette_channel(r: int, g: int, b: int, c: int) -> int {
    hot_channel(luminance(r, g, b), c)
}

/// Channel `c` of a solid `(r, g, b)` color.
pub open spec fn color_channel(r: int, g: int, b: int, c: int) -> int {
    if c == 0 {
        r
    } else if c == 1 {
        g
    } else {
        b
    }
}

/// Clamps a computed channel value to a byte.
fn clamp_channel(v: i32) -> (b: u8)
    ensures
        b == clamp_byte(v as int),
{
    if v < 0 {
        0
    } else if v > 255 {
        255
    } else {
        v as u8
    }
}

/// The hot-ramp color at intensity `s`.
pub fn hot_color(s: u8) -> (rgb: (u8, u8, u8))
    ensures
        rgb.0 == hot_channel(s as int, 0),
        rgb.1 == hot_channel(s as int, 1),
        rgb.2 == hot_channel(s as int, 2),
{
    let si = s as i32;
    (clamp_channel(3 * si), clamp_channel(3 * si - 255), clamp_channel(3 * si - 510))
}

/// The luminance byte of an `(R, G, B)` pixel.
pub fn pixel_luminance(r: u8, g: u8, b: u8) -> (l: u8)
    ensures
        l == luminance(r as int, g as int, b as int),
{
    let v: u32 = (299 * (r as u32) + 587 * (g as u32) + 114 * (b as u32)) / 1000;
    v as u8
}

/// Applies the fixed hot palette to every pixel: each output pixel is the
/// ramp color of its source pixel's luminance.
#[verifier::rlimit(100)]
pub fn apply_palette(img: &RenderedImage) -> (r: RenderedImage)
    requires
        img.wf(),
    ensures
        r.wf(),
        r.width == img.width,
        r.height == img.height,
        forall|p: int, c: int|
            0 <= p < img.width * img.height && 0 <= c < 3 ==> channel_at(r.data@, p, c)
                == palette_channel(
                channel_at(img.data@, p, 0),
                channel_at(img.data@, p, 1),
                channel_at(img.data@, p, 2),
                c,
            ),
{
    let total = img.data.len();
    let pixels = total / 3;
    proof {
        assert(pixels == img.width * img.height);
    }
    let mut data: Vec<u8> = Vec::new();
    let mut p: usize = 0;
    while p < pixels
        invariant
            p <= pixels,
            data@.len() == 3 * p,
            forall|q: int, c: int|
                0 <= q < p && 0 <= c < 3 ==> channel_at(data@, q, c) == palette_channel(
                    channel_at(img.data@, q, 0),
                    channel_at(img.data@, q, 1),
                    channel_at(img.data@, q, 2),
                    c,
                ),
        decreases pixels - p,
    {
        let sr = img.data[3 * p];
        let sg = img.data[3 * p + 1];
        let sb = img.data[3 * p + 2];
        let l = pixel_luminance(sr, sg, sb);
        let (hr, hg, hb) = hot_color(l);
        let ghost before = data@;
        data.push(hr);
        data.push(hg);
        data.push(hb);
        proof {
            assert(data@ =~= before + seq![hr, hg, hb]);
            assert(channel_at(data@, p as int, 0) == hr && channel_at(data@, p as int, 1) == hg
                && channel_at(data@, p as int, 2) == hb);
            let r0 = channel_at(img.data@, p as int, 0);
            let r1 = channel_at(img.data@, p as int, 1);
            let r2 = channel_at(img.data@, p as int, 2);
            assert(sr as int == r0 && sg as int == r1 && sb as int == r2);
            assert(l as int == luminance(r0, r1, r2));
            assert(hr == palette_channel(r0, r1, r2, 0));
            assert(hg == palette_channel(r0, r1, r2, 1));
            assert(hb == palette_channel(r0, r1, r2, 2));
            assert(forall|q: int, c: int|
                0 <= q < p && 0 <= c < 3 ==> channel_at(data@, q, c) == channel_at(before, q, c));
            assert forall|q: int, c: int| 0 <= q < p + 1 && 0 <= c < 3 implies channel_at(
                data@,
                q,
                c,
            ) == palette_channel(
                channel_at(img.data@, q, 0),
                channel_at(img.data@, q, 1),
                channel_at(img.data@, q, 2),
                c,
            ) by {
                if q < p {
                    assert(channel_at(data@, q, c) == channel_at(before, q, c));
                    assert(channel_at(before, q, c) == palette_channel(
                        channel_at(img.data@, q, 0),
                        channel_at(img.data@, q, 1),
                        channel_at(img.data@, q, 2),
                        c,
                    ));
                } else {
                    assert(q == p);
                }
            }
        }
        p += 1;
    }
    RenderedImage { width: img.width, height: img.height, data }
}

/// Whether column `x`, row `y` lies in the half-open rectangle
/// `[rx0, rx1) x [ry0, ry1)`.
pub open spec fn in_rect(x: int, y: int, rx0: int, rx1: int, ry0: int, ry1: int) -> bool {
    rx0 <= x < rx1 && ry0 <= y < ry1
}

/// Fills a half-open rectangle of an image with a solid color, leaving every
/// pixel outside it unchanged.
#[verifier::rlimit(100)]
pub fn fill_rect(
    img: &mut RenderedImage,
    rx0: usize,
    rx1: usize,
    ry0: usize,
    ry1: usize,
    red: u8,
    green: u8,
    blue: u8,
)
    requires
        old(img).wf(),
        rx1 <= old(img).width,
        ry1 <= old(img).height,
    ensures
        final(img).wf(),
        final(img).width == old(img).width,
        final(img).height == old(img).height,
        forall|x: int, y: int, c: int|
            0 <= x < final(img).width && 0 <= y < final(img).height && 0 <= c < 3
                ==> channel_at_xy(final(img).data@, final(img).width as int, x, y, c) == (
            if in_rect(x, y, rx0 as int, rx1 as int, ry0 as int, ry1 as int) {
                color_channel(red as int, green as int, blue as int, c)
            } else {
                channel_at_xy(old(img).data@, old(img).width as int, x, y, c)
            }),
{
    let w = img.width;
    let h = img.height;
    let total = img.data.len();
    proof {
        assert(total == 3 * (w * h));
    }
    let mut y: usize = ry0;
    while y < ry1
        invariant
            ry0 <= y <= ry1 || (y == ry0 && ry0 >= ry1),
            img.width == w,
            img.height == h,
            img.wf(),
            forall|x2: int, y2: int, c2: int|
                0 <= x2 < w && 0 <= y2 < h && 0 <= c2 < 3 ==> channel_at_xy(
                    img.data@,
                    w as int,
                    x2,
                    y2,
                    c2,
                ) == (if in_rect(x2, y2, rx0 as int, rx1 as int, ry0 as int, y as int) {
                    color_channel(red as int, green as int, blue as int, c2)
                } else {
                    channel_at_xy(old(img).data@, w as int, x2, y2, c2)
                }),
        decreases ry1 - y,
    {
        let mut x: usize = rx0;
        while x < rx1
            invariant
                ry0 <= y < ry1,
                rx0 <= x <= rx1 || (x == rx0 && rx0 >= rx1),
                img.width == w,
                img.height == h,
                img.wf(),
                forall|x2: int, y2: int, c2: int|
                    0 <= x2 < w && 0 <= y2 < h && 0 <= c2 < 3 ==> channel_at_xy(
                        img.data@,
                        w as int,
                        x2,
                        y2,
                        c2,
                    ) == (if in_rect(x2, y2, rx0 as int, rx1 as int, ry0 as int, y as int)
                        || in_rect(x2, y2, rx0 as int, x as int, y as int, y + 1) {
                        color_channel(red as int, green as int, blue as int, c2)
                    } else {
                        channel_at_xy(old(img).data@, w as int, x2, y2, c2)
                    }),
            decreases rx1 - x,
        {
            proof {
                lemma_rowmajor_in_bounds(w as int, h as int, x as int, y as int);
                assert(3 * ((y * w) + x) + 2 < total);
                assert(img.data@.len() == total);
            }
            let base: usize = 3 * (y * w + x);
            let ghost before = img.data@;
            img.data.set(base, red);
            img.data.set(base + 1, green);
            img.data.set(base + 2, blue);
            proof {
                assert(channel_at_xy(img.data@, w as int, x as int, y as int, 0) == red);
                assert(channel_at_xy(img.data@, w as int, x as int, y as int, 1) == green);
                assert(channel_at_xy(img.data@, w as int, x as int, y as int, 2) == blue);
                assert forall|x2: int, y2: int, c2: int|
                    0 <= x2 < w && 0 <= y2 < h && 0 <= c2 < 3 && !(x2 == x && y2 == y)
                        implies channel_at_xy(img.data@, w as int, x2, y2, c2) == channel_at_xy(
                    before,
                    w as int,
                    x2,
                    y2,
                    c2,
                ) by {
                    let idx2 = y2 * (w as int) + x2;
                    let idx = (y as int) * (w as int) + (x as int);
                    lemma_rowmajor_in_bounds(w as int, h as int, x2, y2);
                    assert(0 <= 3 * idx2 + c2 < before.len());
                    if y2 < y || (y2 == y && x2 < x) {
                        lemma_rowmajor_lt(w as int, x as int, y as int, x2, y2);
                    } else {
                        lemma_rowmajor_lt(w as int, x2, y2, x as int, y as int);
                    }
                    assert(idx2 != idx);
                    assert(base == 3 * idx);
                    assert(3 * idx2 + c2 != base as int);
                    assert(3 * idx2 + c2 != base + 1);
                    assert(3 * idx2 + c2 != base + 2);
                    assert(img.data@[3 * idx2 + c2] == before[3 * idx2 + c2]);
                }
                assert forall|x2: int, y2: int, c2: int|
                    0 <= x2 < w && 0 <= y2 < h && 0 <= c2 < 3 implies channel_at_xy(
                    img.data@,
                    w as int,
                    x2,
                    y2,
                    c2,
                ) == (if in_rect(x2, y2, rx0 as int, rx1 as int, ry0 as int, y as int) || in_rect(
                    x2,
                    y2,
                    rx0 as int,
                    x + 1,
                    y as int,
                    y + 1,
                ) {
                    color_channel(red as int, green as int, blue as int, c2)
                } else {
                    channel_at_xy(old(img).data@, w as int, x2, y2, c2)
                }) by {
                    if !(x2 == x && y2 == y) {
                        assert(channel_at_xy(img.data@, w as int, x2, y2, c2) == channel_at_xy(
                            before,
                            w as int,
                            x2,
                            y2,
                            c2,
                        ));
                        assert(channel_at_xy(before, w as int, x2, y2, c2) == (if in_rect(
                            x2,
                            y2,
                            rx0 as int,
                            rx1 as int,
                            ry0 as int,
                            y as int,
                        ) || in_rect(x2, y2, rx0 as int, x as int, y as int, y + 1) {
                            color_channel(red as int, green as int, blue as int, c2)
                        } else {
                            channel_at_xy(old(img).data@, w as int, x2, y2, c2)
                        }));
                    }
                }
            }
            x += 1;
        }
        y += 1;
    }
}

/// One axis-aligned crosshair segment in rendered-image coordinates,
/// already scaled by [`UPSCALE`]; it is drawn with the fixed stroke width,
/// endpoints inclusive.
#[derive(Clone, Copy, Debug, PartialEq, Eq, Structural)]
pub struct Segment {
    /// Column of the segment's start.
    pub x0: usize,
    /// Row of the segment's start.
    pub y0: usize,
    /// Column of the segment's end.
    pub x1: usize,
    /// Row of the segment's end.
    pub y1: usize,
}

/// The clamped pre-scale start of a crosshair span centered at `v`:
/// `v - CROSSHAIR_HALF_LEN`, clamped up to 0.
pub open spec fn span_lo(v: int) -> int {
    if v >= CROSSHAIR_HALF_LEN {
        v - CROSSHAIR_HALF_LEN
    } else {
        0
    }
}

/// The clamped pre-scale end of a crosshair span centered at `v`:
/// `v + CROSSHAIR_HALF_LEN`, clamped down to `bound` (the grid extent).
pub open spec fn span_hi(v: int, bound: int) -> int {
    if v + CROSSHAIR_HALF_LEN <= bound {
        v + CROSSHAIR_HALF_LEN
    } else {
        bound
    }
}

/// Computes the crosshair's two segments for a peak: spans are clamped to
/// the thermal grid's bounds first, and both endpoints are then scaled by
/// [`UPSCALE`] into rendered-image coordinates. The horizontal segment
/// comes first.
pub fn crosshair_segments(peak: &PeakPoint) -> (s: (Segment, Segment))
    requires
        peak.x < GRID_WIDTH,
        peak.y < GRID_HEIGHT,
    ensures
        s.0.x0 == UPSCALE * span_lo(peak.x as int),
        s.0.x1 == UPSCALE * span_hi(peak.x as int, GRID_WIDTH as int),
        s.0.y0 == UPSCALE * peak.y && s.0.y1 == UPSCALE * peak.y,
        s.1.x0 == UPSCALE * peak.x && s.1.x1 == UPSCALE * peak.x,
        s.1.y0 == UPSCALE * span_lo(peak.y as int),
        s.1.y1 == UPSCALE * span_hi(peak.y as int, GRID_HEIGHT as int),
        s.0.x0 <= s.0.x1 <= UPSCALE * GRID_WIDTH,
        s.1.y0 <= s.1.y1 <= UPSCALE * GRID_HEIGHT,
{
    let hx0 = if peak.x >= CROSSHAIR_HALF_LEN {
        UPSCALE * (peak.x - CROSSHAIR_HALF_LEN)
    } else {
        0
    };
    let hx1 = if peak.x + CROSSHAIR_HALF_LEN <= GRID_WIDTH {
        UPSCALE * (peak.x + CROSSHAIR_HALF_LEN)
    } else {
        UPSCALE * GRID_WIDTH
    };
    let vy0 = if peak.y >= CROSSHAIR_HALF_LEN {
        UPSCALE * (peak.y - CROSSHAIR_HALF_LEN)
    } else {
        0
    };
    let vy1 = if peak.y + CROSSHAIR_HALF_LEN <= GRID_HEIGHT {
        UPSCALE * (peak.y + CROSSHAIR_HALF_LEN)
    } else {
        UPSCALE * GRID_HEIGHT
    };
    let cy = UPSCALE * peak.y;
    let cx = UPSCALE * peak.x;
    (
        Segment { x0: hx0, y0: cy, x1: hx1, y1: cy },
        Segment { x0: cx, y0: vy0, x1: cx, y1: vy1 },
    )
}

/// Whether column `x`, row `y` of an image of the given dimensions lies in
/// the crosshair footprint drawn for `peak`: within the stroke of the
/// horizontal or the vertical segment (the stroke covers one pixel on each
/// side of the segment's line), endpoints inclusive, clipped to the image.
pub open spec fn in_crosshair(peak: PeakPoint, width: int, height: int, x: int, y: int) -> bool {
    ||| {
        &&& UPSCALE * span_lo(peak.x as int) <= x <= UPSCALE * span_hi(
            peak.x as int,
            GRID_WIDTH as int,
        )
        &&& UPSCALE * peak.y - 1 <= y <= UPSCALE * peak.y + 1
        &&& x < width
        &&& y < height
    }
    ||| {
        &&& UPSCALE * peak.x - 1 <= x <= UPSCALE * peak.x + 1
        &&& UPSCALE * span_lo(peak.y as int) <= y <= UPSCALE * span_hi(
            peak.y as int,
            GRID_HEIGHT as int,
        )
        &&& x < width
        &&& y < height
    }
}

/// Draws the crosshair for `peak` in pure red on the image, with the fixed
/// stroke width: every pixel of the footprint becomes red, every other
/// pixel is unchanged.
pub fn draw_crosshair(img: &mut RenderedImage, peak: &PeakPoint)
    requires
        old(img).wf(),
        peak.x < GRID_WIDTH,
        peak.y < GRID_HEIGHT,
    ensures
        final(img).wf(),
        final(img).width == old(img).width,
        final(img).height == old(img).height,
        forall|x: int, y: int, c: int|
            0 <= x < final(img).width && 0 <= y < final(img).height && 0 <= c < 3
                ==> channel_at_xy(final(img).data@, final(img).width as int, x, y, c) == (
            if in_crosshair(*peak, old(img).width as int, old(img).height as int, x, y) {
                color_channel(255, 0, 0, c)
            } else {
                channel_at_xy(old(img).data@, old(img).width as int, x, y, c)
            }),
{
    let w = img.width;
    let h = img.height;
    let segs = crosshair_segments(peak);
    let hseg = segs.0;
    let vseg = segs.1;
    // the stroke covers half its width on each side of the segment's line
    let reach = CROSSHAIR_STROKE / 2;
    // stroke rectangle of the horizontal segment, clipped to the image
    let h_rx0 = hseg.x0;
    let h_rx1 = if hseg.x1 + 1 <= w {
        hseg.x1 + 1
    } else {
        w
    };
    let h_ry0 = if hseg.y0 >= reach {
        hseg.y0 - reach
    } else {
        0
    };
    let h_ry1 = if hseg.y0 + reach + 1 <= h {
        hseg.y0 + reach + 1
    } else {
        h
    };
    // stroke rectangle of the vertical segment, clipped to the image
    let v_rx0 = if vseg.x0 >= reach {
        vseg.x0 - reach
    } else {
        0
    };
    let v_rx1 = if vseg.x0 + reach + 1 <= w {
        vseg.x0 + reach + 1
    } else {
        w
    };
    let v_ry0 = vseg.y0;
    let v_ry1 = if vseg.y1 + 1 <= h {
        vseg.y1 + 1
    } else {
        h
    };
    let ghost start = img.data@;
    fill_rect(img, h_rx0, h_rx1, h_ry0, h_ry1, 255, 0, 0);
    let ghost mid = img.data@;
    fill_rect(img, v_rx0, v_rx1, v_ry0, v_ry1, 255, 0, 0);
    proof {
        assert forall|x: int, y: int, c: int|
            0 <= x < w && 0 <= y < h && 0 <= c < 3 implies channel_at_xy(
            img.data@,
            w as int,
            x,
            y,
            c,
        ) == (if in_crosshair(*peak, w as int, h as int, x, y) {
            color_channel(255, 0, 0, c)
        } else {
            channel_at_xy(start, w as int, x, y, c)
        }) by {
            assert(channel_at_xy(img.data@, w as int, x, y, c) == (if in_rect(
                x,
                y,
                v_rx0 as int,
                v_rx1 as int,
                v_ry0 as int,
                v_ry1 as int,
            ) {
                color_channel(255, 0, 0, c)
            } else {
                channel_at_xy(mid, w as int, x, y, c)
            }));
            assert(channel_at_xy(mid, w as int, x, y, c) == (if in_rect(
                x,
                y,
                h_rx0 as int,
                h_rx1 as int,
                h_ry0 as int,
                h_ry1 as int,
            ) {
                color_channel(255, 0, 0, c)
            } else {
                channel_at_xy(start, w as int, x, y, c)
            }));
        }
    }
}

/// Composes the final heatmap in place: applies the hot palette to every
/// pixel, then draws the crosshair for `peak` over it.
pub fn compose_heatmap(img: &mut RenderedImage, peak: &PeakPoint)
    requires
        old(img).wf(),
        peak.x < GRID_WIDTH,
        peak.y < GRID_HEIGHT,
    ensures
        final(img).wf(),
        final(img).width == old(img).width,
        final(img).height == old(img).height,
        forall|x: int, y: int, c: int|
            0 <= x < final(img).width && 0 <= y < final(img).height && 0 <= c < 3
                ==> channel_at_xy(final(img).data@, final(img).width as int, x, y, c) == (
            if in_crosshair(*peak, old(img).width as int, old(img).height as int, x, y) {
                color_channel(255, 0, 0, c)
            } else {
                palette_channel(
                    channel_at_xy(old(img).data@, old(img).width as int, x, y, 0),
                    channel_at_xy(old(img).data@, old(img).width as int, x, y, 1),
                    channel_at_xy(old(img).data@, old(img).width as int, x, y, 2),
                    c,
                )
            }),
{
    let ghost w = img.width as int;
    let ghost h = img.height as int;
    let paletted = apply_palette(img);
    *img = paletted;
    proof {
        assert forall|x: int, y: int, c: int|
            0 <= x < w && 0 <= y < h && 0 <= c < 3 implies channel_at_xy(
            img.data@,
            w,
            x,
            y,
            c,
        ) == palette_channel(
            channel_at_xy(old(img).data@, w, x, y, 0),
            channel_at_xy(old(img).data@, w, x, y, 1),
            channel_at_xy(old(img).data@, w, x, y, 2),
            c,
        ) by {
            lemma_rowmajor_in_bounds(w, h, x, y);
        }
    }
    draw_crosshair(img, peak);
}

} // verus!
