//! Rendering the visible region: color conversion, the amplitude pass, and
//! the upscale.

use vstd::prelude::*;

use crate::config::UPSCALE;
use crate::error::PipelineError;
use crate::frame::{byte_len_matches, VisibleRegion};
use crate::raster::{
    channel_at, channel_at_xy, lemma_rowmajor_in_bounds, lemma_rowmajor_lt, RenderedImage,
};

verus! {

/// Clamps an integer to the byte range `[0, 255]`.
pub open spec fn clamp_byte(v: int) -> int {
    if v < 0 {
        0
    } else if v > 255 {
        255
    } else {
        v
    }
}

/// Channel `c` (0 red, 1 green, 2 blue) of the ITU-R BT.601 conversion of a
/// `(Y, U, V)` triple, in the common 8-bit integer form: contributions are
/// scaled by 256 with a rounding term, then divided and clamped.
pub open spec fn bt601_channel(y: int, u: int, v: int, c: int) -> int {
    let lum = 298 * (y - 16);
    let d = u - 128;
    let e = v - 128;
    if c == 0 {
        clamp_byte((lum + 409 * e + 128) / 256)
    } else if c == 1 {
        clamp_byte((lum - 100 * d - 208 * e + 128) / 256)
    } else {
        clamp_byte((lum + 516 * d + 128) / 256)
    }
}

/// Scales a BT.601 numerator down by 256 and clamps it to a byte.
fn scale_clamp(n: i32) -> (b: u8)
    requires
        -10_000_000 <= n <= 10_000_000,
    ensures
        b == clamp_byte(n as int / 256),
{
    if n < 0 {
        proof {
            assert(n as int / 256 < 0) by (nonlinear_arith)
                requires
                    n < 0,
            ;
        }
        0
    } else {
        let q = n / 256;
        if q > 255 {
            255
        } else {
            q as u8
        }
    }
}

/// Converts one BT.601 `(Y, U, V)` triple to an `(R, G, B)` triple.
pub fn yuv_to_rgb(y: u8, u: u8, v: u8) -> (rgb: (u8, u8, u8))
    ensures
        rgb.0 == bt601_channel(y as int, u as int, v as int, 0),
        rgb.1 == bt601_channel(y as int, u as int, v as int, 1),
        rgb.2 == bt601_channel(y as int, u as int, v as int, 2),
{
    let lum: i32 = 298 * (y as i32 - 16);
    let d: i32 = u as i32 - 128;
    let e: i32 = v as i32 - 128;
    let r = scale_clamp(lum + 409 * e + 128);
    let g = scale_clamp(lum - 100 * d - 208 * e + 128);
    let b = scale_clamp(lum + 516 * d + 128);
    (r, g, b)
}

/// The luma byte of pixel `p` in a YUYV byte sequence.
pub open spec fn src_y(b: Seq<u8>, p: int) -> int {
    b[2 * p] as int
}

/// The chroma-blue byte shared by pixel `p`'s two-pixel group.
pub open spec fn src_u(b: Seq<u8>, p: int) -> int {
    b[4 * (p / 2) + 1] as int
}

/// The chroma-red byte shared by pixel `p`'s two-pixel group.
pub open spec fn src_v(b: Seq<u8>, p: int) -> int {
    b[4 * (p / 2) + 3] as int
}

/// Channel `c` of pixel `p` after color conversion of a YUYV sequence.
pub open spec fn converted_channel(b: Seq<u8>, p: int, c: int) -> int {
    bt601_channel(src_y(b, p), src_u(b, p), src_v(b, p), c)
}

/// Color-converts a YUYV visible region into a three-channel image of the
/// same dimensions.
///
/// Fails with `PipelineError::Conversion` exactly when the byte length is
/// not two bytes per pixel or the width is odd (the 4:2:2 layout pairs
/// adjacent pixels, so a row must hold whole pairs).
/// Appends the two converted pixels of pair `k` of a YUYV sequence to a
/// raster under construction that already holds the earlier pairs.
#[verifier::rlimit(100)]
fn push_converted_pair(data: &mut Vec<u8>, bytes: &Vec<u8>, k: usize)
    requires
        4 * k + 3 < bytes@.len(),
        old(data)@.len() == 6 * k,
    ensures
        final(data)@.len() == 6 * k + 6,
        forall|q: int, c: int|
            0 <= q < 2 * k && 0 <= c < 3 ==> channel_at(final(data)@, q, c) == channel_at(
                old(data)@,
                q,
                c,
            ),
        channel_at(final(data)@, 2 * k as int, 0) == converted_channel(bytes@, 2 * k as int, 0),
        channel_at(final(data)@, 2 * k as int, 1) == converted_channel(bytes@, 2 * k as int, 1),
        channel_at(final(data)@, 2 * k as int, 2) == converted_channel(bytes@, 2 * k as int, 2),
        channel_at(final(data)@, 2 * k + 1, 0) == converted_channel(bytes@, 2 * k + 1, 0),
        channel_at(final(data)@, 2 * k + 1, 1) == converted_channel(bytes@, 2 * k + 1, 1),
        channel_at(final(data)@, 2 * k + 1, 2) == converted_channel(bytes@, 2 * k + 1, 2),
{
    let n = bytes.len();
    proof {
        assert(4 * k + 3 < n);
    }
    let y0 = bytes[4 * k];
    let u = bytes[4 * k + 1];
    let y1 = bytes[4 * k + 2];
    let v = bytes[4 * k + 3];
    let (r0, g0, b0) = yuv_to_rgb(y0, u, v);
    let (r1, g1, b1) = yuv_to_rgb(y1, u, v);
    let ghost before = data@;
    data.push(r0);
    data.push(g0);
    data.push(b0);
    data.push(r1);
    data.push(g1);
    data.push(b1);
    proof {
        assert(data@ =~= before + seq![r0, g0, b0, r1, g1, b1]);
        let p0 = 2 * k as int;
        let p1 = 2 * k + 1;
        assert(p0 / 2 == k && p1 / 2 == k);
        assert(channel_at(data@, p0, 0) == r0 && channel_at(data@, p0, 1) == g0 && channel_at(
            data@,
            p0,
            2,
        ) == b0);
        assert(channel_at(data@, p1, 0) == r1 && channel_at(data@, p1, 1) == g1 && channel_at(
            data@,
            p1,
            2,
        ) == b1);
    }
}

/// Color-converts a YUYV visible region into a three-channel image of the
/// same dimensions.
///
/// Fails with `PipelineError::Conversion` exactly when the byte length is
/// not two bytes per pixel or the width is odd (the 4:2:2 layout pairs
/// adjacent pixels, so a row must hold whole pairs).
#[verifier::rlimit(100)]
pub fn convert_visible(region: &VisibleRegion) -> (r: Result<RenderedImage, PipelineError>)
    ensures
        r is Ok <==> region.wf() && region.width % 2 == 0,
        r matches Err(e) ==> e == PipelineError::Conversion,
        r matches Ok(img) ==> {
            &&& img.wf()
            &&& img.width == region.width
            &&& img.height == region.height
            &&& forall|p: int, c: int|
                0 <= p < region.width * region.height && 0 <= c < 3
                    ==> channel_at(img.data@, p, c) == converted_channel(region.bytes@, p, c)
        },
{
    if region.width % 2 != 0 {
        return Err(PipelineError::Conversion);
    }
    if !byte_len_matches(region.bytes.len(), region.width, region.height) {
        return Err(PipelineError::Conversion);
    }
    let pixels: usize = region.bytes.len() / 2;
    proof {
        assert(2 * (region.width * region.height) == 2 * region.width * region.height)
            by (nonlinear_arith);
        assert(pixels == region.width * region.height);
        let m = (region.width / 2) as int;
        assert(region.width * region.height == 2 * (m * region.height)) by (nonlinear_arith)
            requires
                region.width == 2 * m,
        ;
        assert(2 * (m * region.height) % 2 == 0) by (nonlinear_arith);
    }
    let pairs: usize = pixels / 2;
    let mut data: Vec<u8> = Vec::new();
    let mut k: usize = 0;
    while k < pairs
        invariant
            k <= pairs,
            data@.len() == 6 * k,
            forall|q: int, c: int|
                0 <= q < 2 * k && 0 <= c < 3
                    ==> channel_at(data@, q, c) == converted_channel(region.bytes@, q, c),
        decreases pairs - k,
    {
        push_converted_pair(&mut data, &region.bytes, k);
        k += 1;
    }
    proof {
        assert(3 * (region.width * region.height) == data@.len());
    }
    Ok(RenderedImage { width: region.width, height: region.height, data })
}

/// The amplitude-rescale pass of the renderer: a linear rescale with scale 1
/// and offset 0, kept as an explicit stage for future gain or brightness
/// adjustment; with these fixed parameters it returns the image unchanged.
pub fn amplitude_rescale(img: &RenderedImage) -> (r: RenderedImage)
    ensures
        r.width == img.width,
        r.height == img.height,
        r.data@ == img.data@,
{
    RenderedImage { width: img.width, height: img.height, data: img.data.clone() }
}

/// Upscales an image uniformly by [`UPSCALE`] in both axes by pixel
/// replication: each source pixel becomes an `UPSCALE` by `UPSCALE` block.
#[verifier::rlimit(60)]
pub fn upscale(img: &RenderedImage) -> (r: RenderedImage)
    requires
        img.wf(),
        img.width * img.height <= usize::MAX / 27,
        img.width <= usize::MAX / 3,
        img.height <= usize::MAX / 3,
    ensures
        r.wf(),
        r.width == UPSCALE * img.width,
        r.height == UPSCALE * img.height,
        forall|x: int, y: int, c: int|
            0 <= x < r.width && 0 <= y < r.height && 0 <= c < 3
                ==> channel_at_xy(r.data@, r.width as int, x, y, c)
                    == channel_at_xy(img.data@, img.width as int, x / (UPSCALE as int), y / (
                UPSCALE as int), c),
{
    let w = img.width;
    let h = img.height;
    let out_w: usize = UPSCALE * w;
    let out_h: usize = UPSCALE * h;
    proof {
        assert(UPSCALE * w * (UPSCALE * h) == 9 * (w * h) && 3 * (9 * (w * h)) == 27 * (w * h)
            && w * h <= w * h) by (nonlinear_arith);
        assert(27 * (w * h) <= usize::MAX) by (nonlinear_arith)
            requires
                w * h <= usize::MAX / 27,
        ;
    }
    let mut data: Vec<u8> = Vec::new();
    let mut y: usize = 0;
    while y < out_h
        invariant
            y <= out_h,
            data@.len() == 3 * (y * out_w),
            forall|x2: int, y2: int, c2: int|
                0 <= x2 < out_w && 0 <= y2 < y && 0 <= c2 < 3
                    ==> channel_at_xy(data@, out_w as int, x2, y2, c2) == channel_at_xy(
                    img.data@,
                    w as int,
                    x2 / (UPSCALE as int),
                    y2 / (UPSCALE as int),
                    c2,
                ),
        decreases out_h - y,
    {
        let sy = y / UPSCALE;
        let mut x: usize = 0;
        while x < out_w
            invariant
                x <= out_w,
                y < out_h,
                sy == y / UPSCALE,
                data@.len() == 3 * (y * out_w + x),
                forall|x2: int, y2: int, c2: int|
                    0 <= x2 < out_w && 0 <= c2 < 3 && (0 <= y2 < y || (y2 == y && 0 <= x2 < x))
                        ==> channel_at_xy(data@, out_w as int, x2, y2, c2) == channel_at_xy(
                        img.data@,
                        w as int,
                        x2 / (UPSCALE as int),
                        y2 / (UPSCALE as int),
                        c2,
                    ),
            decreases out_w - x,
        {
            let sx = x / UPSCALE;
            proof {
                assert(sx < w && sy < h);
                lemma_rowmajor_in_bounds(w as int, h as int, sx as int, sy as int);
                lemma_rowmajor_in_bounds(out_w as int, out_h as int, x as int, y as int);
                assert(3 * (sy * w + sx) + 2 < 3 * (w * h));
            }
            let base: usize = 3 * (sy * w + sx);
            let ghost before = data@;
            let ghost base_out = 3 * (y * out_w + x);
            data.push(img.data[base]);
            data.push(img.data[base + 1]);
            data.push(img.data[base + 2]);
            proof {
                assert(data@ =~= before + seq![
                    img.data@[base as int],
                    img.data@[base + 1],
                    img.data@[base + 2],
                ]);
                assert(channel_at_xy(data@, out_w as int, x as int, y as int, 0) == channel_at_xy(
                    img.data@,
                    w as int,
                    sx as int,
                    sy as int,
                    0,
                ));
                assert(channel_at_xy(data@, out_w as int, x as int, y as int, 1) == channel_at_xy(
                    img.data@,
                    w as int,
                    sx as int,
                    sy as int,
                    1,
                ));
                assert(channel_at_xy(data@, out_w as int, x as int, y as int, 2) == channel_at_xy(
                    img.data@,
                    w as int,
                    sx as int,
                    sy as int,
                    2,
                ));
                assert(sx as int == x as int / (UPSCALE as int));
                assert(sy as int == y as int / (UPSCALE as int));
                assert forall|x2: int, y2: int, c2: int|
                    0 <= x2 < out_w && 0 <= c2 < 3 && (0 <= y2 < y || (y2 == y && 0 <= x2 < x
                        + 1)) implies channel_at_xy(data@, out_w as int, x2, y2, c2)
                    == channel_at_xy(
                    img.data@,
                    w as int,
                    x2 / (UPSCALE as int),
                    y2 / (UPSCALE as int),
                    c2,
                ) by {
                    if y2 < y || x2 < x {
                        lemma_rowmajor_lt(out_w as int, x as int, y as int, x2, y2);
                        assert(channel_at_xy(data@, out_w as int, x2, y2, c2) == channel_at_xy(
                            before,
                            out_w as int,
                            x2,
                            y2,
                            c2,
                        ));
                    }
                }
            }
            x += 1;
        }
        proof {
            assert(3 * (y * out_w + out_w) == 3 * ((y + 1) * out_w)) by (nonlinear_arith);
        }
        y += 1;
    }
    proof {
        assert(3 * (out_h * out_w) == 3 * (out_w * out_h)) by (nonlinear_arith);
    }
    RenderedImage { width: out_w, height: out_h, data }
}

/// Renders a visible region into the pre-palette image: BT.601 color
/// conversion, the identity amplitude pass, and the replication upscale.
///
/// On success the image's dimensions are exactly `UPSCALE` times the
/// region's in each axis, and each output pixel is the conversion of the
/// source pixel its block replicates. Fails with
/// `PipelineError::Conversion` exactly when the region's byte length or
/// parity is unusable.
pub fn render_visible(region: &VisibleRegion) -> (r: Result<RenderedImage, PipelineError>)
    requires
        region.width * region.height <= usize::MAX / 27,
        region.width <= usize::MAX / 3,
        region.height <= usize::MAX / 3,
    ensures
        r is Ok <==> region.wf() && region.width % 2 == 0,
        r matches Err(e) ==> e == PipelineError::Conversion,
        r matches Ok(img) ==> {
            &&& img.wf()
            &&& img.width == UPSCALE * region.width
            &&& img.height == UPSCALE * region.height
            &&& forall|x: int, y: int, c: int|
                0 <= x < img.width && 0 <= y < img.height && 0 <= c < 3
                    ==> channel_at_xy(img.data@, img.width as int, x, y, c) == converted_channel(
                    region.bytes@,
                    (y / (UPSCALE as int)) * region.width + x / (UPSCALE as int),
                    c,
                )
        },
{
    let converted = match convert_visible(region) {
        Ok(img) => img,
        Err(e) => { return Err(e); },
    };
    let passed = amplitude_rescale(&converted);
    let out = upscale(&passed);
    proof {
        assert forall|x: int, y: int, c: int|
            0 <= x < out.width && 0 <= y < out.height && 0 <= c < 3 implies channel_at_xy(
            out.data@,
            out.width as int,
            x,
            y,
            c,
        ) == converted_channel(
            region.bytes@,
            (y / (UPSCALE as int)) * region.width + x / (UPSCALE as int),
            c,
        ) by {
            let sx = x / (UPSCALE as int);
            let sy = y / (UPSCALE as int);
            assert(0 <= sx < region.width && 0 <= sy < region.height);
            lemma_rowmajor_in_bounds(region.width as int, region.height as int, sx, sy);
            assert(channel_at_xy(passed.data@, region.width as int, sx, sy, c)
                == channel_at(passed.data@, sy * region.width + sx, c));
        }
    }
    Ok(out)
}


} // verus!
