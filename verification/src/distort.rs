//! Bilinear sub-pixel sampling.
//!
//! A fractional source coordinate `(u, v)` names a point between four
//! neighboring integer pixels. The sampler synthesizes one pixel value by
//! weighting those four taps by their proximity along each axis, with any
//! tap outside the image contributing zero ("black"); the combination is
//! computed exactly in the fixed-point domain of
//! [`SUBPIXELS_PER_PX`](crate::units::SUBPIXELS_PER_PX)ths, and only the
//! final value is clamped to the pixel range and rounded to nearest.

use vstd::prelude::*;
use crate::image::Image;
use crate::units::{DistPx, DistPxFrac, PX, SUBPIXELS_PER_PX};

verus! {

/// The bounds-checked tap: the sample at column `x` of row `y` of a `w` by
/// `h` row-major grid, or zero for any coordinate outside the grid.
pub open spec fn tap(pix: Seq<i16>, w: int, h: int, x: int, y: int) -> int {
    if 0 <= x < w && 0 <= y < h {
        pix[y * w + x] as int
    } else {
        0
    }
}

/// The bilinear combination of the four taps of a cell, scaled by
/// `SUBPIXELS_PER_PX` squared: `a`, `b` are the upper two taps, `c`, `d`
/// the lower two, and `fx`, `fy` the sub-pixel offsets into the cell.
pub open spec fn bilinear_scaled(a: int, b: int, c: int, d: int, fx: int, fy: int) -> int {
    (a * (SUBPIXELS_PER_PX - fx) + b * fx) * (SUBPIXELS_PER_PX - fy) + (c * (SUBPIXELS_PER_PX - fx)
        + d * fx) * fy
}

/// Clamps a scaled interpolation result to the representable range
/// `[0, i16::MAX]`, rounding to the nearest whole sample (halves up) while
/// removing the scale.
pub open spec fn clamp_round(n: int) -> int {
    let s2 = SUBPIXELS_PER_PX * SUBPIXELS_PER_PX;
    if n <= 0 {
        0
    } else if n >= i16::MAX * s2 {
        i16::MAX as int
    } else {
        (2 * n + s2) / (2 * s2)
    }
}

/// The value bilinear sampling yields at the fixed-point coordinate
/// `(u, v)` of a `w` by `h` row-major grid.
pub open spec fn sample_spec(pix: Seq<i16>, w: int, h: int, u: int, v: int) -> int {
    let s = SUBPIXELS_PER_PX as int;
    let x0 = u / s;
    let y0 = v / s;
    let fx = u % s;
    let fy = v % s;
    clamp_round(
        bilinear_scaled(
            tap(pix, w, h, x0, y0),
            tap(pix, w, h, x0 + 1, y0),
            tap(pix, w, h, x0, y0 + 1),
            tap(pix, w, h, x0 + 1, y0 + 1),
            fx,
            fy,
        ),
    )
}

/// Blending two values from a common range, with weights that sum to the
/// fixed-point scale, stays within the range scaled up.
proof fn lemma_blend_bound(lo: int, hi: int, p: int, q: int, f: int)
    by (nonlinear_arith)
    requires
        lo <= 0 <= hi,
        lo <= p <= hi,
        lo <= q <= hi,
        0 <= f <= 65536,
    ensures
        65536 * lo <= p * (65536 - f) + q * f <= 65536 * hi,
        65536 * lo <= p * (65536 - f) <= 65536 * hi,
        65536 * lo <= q * f <= 65536 * hi,
{
}

/// Fetches the pixel at `(x, y)`, or numeric zero ("black") for any
/// coordinate outside `[0, width) x [0, height)`. This is the defined edge
/// policy of the sampler, not an error condition.
pub fn pixel_or_black<ImageType: Image<i16>>(img: &ImageType, x: DistPx, y: DistPx) -> (r: i16)
    requires
        img.wf(),
    ensures
        r as int == tap(img.pixels_spec(), img.width_spec(), img.height_spec(), x@, y@),
{
    let zero = DistPx::new(0);
    let (width, height) = img.dimensions();
    if x.lt(zero) || y.lt(zero) || !x.lt(width) || !y.lt(height) {
        0
    } else {
        img.get(x, y)
    }
}

/// Samples a sub-pixel point on the source image by synthesizing a new
/// pixel via bilinear filtering: the four taps around `(u, v)` are blended
/// exactly in fixed point, and the result is clamped to `[0, i16::MAX]`
/// and rounded to the nearest sample value.
pub fn sample_image<ImageType: Image<i16>>(img: &ImageType, u: DistPxFrac, v: DistPxFrac) -> (r:
    i16)
    requires
        img.wf(),
    ensures
        r as int == sample_spec(img.pixels_spec(), img.width_spec(), img.height_spec(), u@, v@),
{
    let one = DistPx::new(1);

    // Remove the units from the coordinates: bare sub-pixel counts.
    let u0 = u.subpixels(PX);
    let v0 = v.subpixels(PX);

    // The top-left ("A") pixel of the sample window.
    let x0 = u.floor();
    let y0 = v.floor();

    // Contributions of the columns (rows) on either side of the point,
    // as fixed-point weights that sum to one pixel.
    let fx = u0.checked_rem_euclid(SUBPIXELS_PER_PX).unwrap();
    let fy = v0.checked_rem_euclid(SUBPIXELS_PER_PX).unwrap();
    let gx = SUBPIXELS_PER_PX - fx;
    let gy = SUBPIXELS_PER_PX - fy;

    let x1 = x0.plus(one);
    let y1 = y0.plus(one);

    // The four taps that contribute to the output.
    let a = pixel_or_black(img, x0, y0) as i64;
    let b = pixel_or_black(img, x1, y0) as i64;
    let c = pixel_or_black(img, x0, y1) as i64;
    let d = pixel_or_black(img, x1, y1) as i64;

    proof {
        lemma_blend_bound(i16::MIN as int, i16::MAX as int, a as int, b as int, fx as int);
        lemma_blend_bound(i16::MIN as int, i16::MAX as int, c as int, d as int, fx as int);
    }
    let top = a * gx + b * fx;
    let bot = c * gx + d * fx;
    proof {
        lemma_blend_bound(
            65536 * (i16::MIN as int),
            65536 * (i16::MAX as int),
            top as int,
            bot as int,
            fy as int,
        );
    }
    let n = top * gy + bot * fy;

    // Clamp to the representable range and round to nearest.
    let s2: i64 = SUBPIXELS_PER_PX * SUBPIXELS_PER_PX;
    let result: i64 = if n <= 0 {
        0
    } else if n >= (i16::MAX as i64) * s2 {
        i16::MAX as i64
    } else {
        (2 * n + s2) / (2 * s2)
    };
    result as i16
}

/// A whole in-range sample value survives clamping and rounding unchanged.
proof fn lemma_clamp_round_exact(a: int)
    requires
        0 <= a <= i16::MAX,
    ensures
        clamp_round(a * SUBPIXELS_PER_PX * SUBPIXELS_PER_PX) == a,
{
    let s2 = SUBPIXELS_PER_PX * SUBPIXELS_PER_PX;
    if 0 < a < i16::MAX {
        vstd::arithmetic::div_mod::lemma_fundamental_div_mod_converse(
            2 * (a * s2) + s2,
            2 * s2,
            a,
            s2 as int,
        );
    }
}

/// Law: sampling exactly at an integer pixel center yields that pixel's
/// stored value unchanged, for every in-bounds pixel holding a
/// non-negative value. (A negative stored value is clamped to zero by the
/// final rounding step, as any sample is.)
pub proof fn lemma_identity_sample(pix: Seq<i16>, w: int, h: int, x: int, y: int)
    requires
        0 <= x < w,
        0 <= y < h,
        pix.len() == w * h,
        0 <= pix[y * w + x],
    ensures
        sample_spec(pix, w, h, x * SUBPIXELS_PER_PX, y * SUBPIXELS_PER_PX) == pix[y * w + x],
{
    let s = SUBPIXELS_PER_PX as int;
    vstd::arithmetic::div_mod::lemma_fundamental_div_mod_converse(x * s, s, x, 0);
    vstd::arithmetic::div_mod::lemma_fundamental_div_mod_converse(y * s, s, y, 0);
    let a = tap(pix, w, h, x, y);
    lemma_clamp_round_exact(a);
}

/// Law: sampling anywhere inside a cell whose four taps hold one shared
/// in-range value yields that value, regardless of the sub-pixel offsets
/// within the cell.
pub proof fn lemma_equal_neighbors(pix: Seq<i16>, w: int, h: int, u: int, v: int, q: int)
    requires
        0 <= q <= i16::MAX,
        tap(pix, w, h, u / (SUBPIXELS_PER_PX as int), v / (SUBPIXELS_PER_PX as int)) == q,
        tap(pix, w, h, u / (SUBPIXELS_PER_PX as int) + 1, v / (SUBPIXELS_PER_PX as int)) == q,
        tap(pix, w, h, u / (SUBPIXELS_PER_PX as int), v / (SUBPIXELS_PER_PX as int) + 1) == q,
        tap(pix, w, h, u / (SUBPIXELS_PER_PX as int) + 1, v / (SUBPIXELS_PER_PX as int) + 1) == q,
    ensures
        sample_spec(pix, w, h, u, v) == q,
{
    let fx = u % (SUBPIXELS_PER_PX as int);
    let fy = v % (SUBPIXELS_PER_PX as int);
    assert((q * (65536 - fx) + q * fx) * (65536 - fy) + (q * (65536 - fx) + q * fx) * fy == q
        * 65536 * 65536) by (nonlinear_arith);
    lemma_clamp_round_exact(q);
}

/// Law: when the two rows of the sample window agree column by column, the
/// sample is the exact linear interpolation between the left tap `a` and
/// the right tap `b` along the x axis, weighted by the sub-pixel offset.
pub proof fn lemma_x_axis_linear(pix: Seq<i16>, w: int, h: int, u: int, v: int, a: int, b: int)
    requires
        tap(pix, w, h, u / (SUBPIXELS_PER_PX as int), v / (SUBPIXELS_PER_PX as int)) == a,
        tap(pix, w, h, u / (SUBPIXELS_PER_PX as int) + 1, v / (SUBPIXELS_PER_PX as int)) == b,
        tap(pix, w, h, u / (SUBPIXELS_PER_PX as int), v / (SUBPIXELS_PER_PX as int) + 1) == a,
        tap(pix, w, h, u / (SUBPIXELS_PER_PX as int) + 1, v / (SUBPIXELS_PER_PX as int) + 1) == b,
    ensures
        sample_spec(pix, w, h, u, v) == clamp_round(
            (a * (SUBPIXELS_PER_PX - u % (SUBPIXELS_PER_PX as int)) + b * (u % (SUBPIXELS_PER_PX as int)))
                * SUBPIXELS_PER_PX,
        ),
{
    let fx = u % (SUBPIXELS_PER_PX as int);
    let fy = v % (SUBPIXELS_PER_PX as int);
    assert((a * (65536 - fx) + b * fx) * (65536 - fy) + (a * (65536 - fx) + b * fx) * fy == (a * (
    65536 - fx) + b * fx) * 65536) by (nonlinear_arith);
}

/// Law: when the two columns of the sample window agree row by row, the
/// sample is the exact linear interpolation between the upper tap `a` and
/// the lower tap `b` along the y axis, weighted by the sub-pixel offset.
pub proof fn lemma_y_axis_linear(pix: Seq<i16>, w: int, h: int, u: int, v: int, a: int, b: int)
    requires
        tap(pix, w, h, u / (SUBPIXELS_PER_PX as int), v / (SUBPIXELS_PER_PX as int)) == a,
        tap(pix, w, h, u / (SUBPIXELS_PER_PX as int) + 1, v / (SUBPIXELS_PER_PX as int)) == a,
        tap(pix, w, h, u / (SUBPIXELS_PER_PX as int), v / (SUBPIXELS_PER_PX as int) + 1) == b,
        tap(pix, w, h, u / (SUBPIXELS_PER_PX as int) + 1, v / (SUBPIXELS_PER_PX as int) + 1) == b,
    ensures
        sample_spec(pix, w, h, u, v) == clamp_round(
            (a * (SUBPIXELS_PER_PX - v % (SUBPIXELS_PER_PX as int)) + b * (v % (SUBPIXELS_PER_PX as int)))
                * SUBPIXELS_PER_PX,
        ),
{
    let fx = u % (SUBPIXELS_PER_PX as int);
    let fy = v % (SUBPIXELS_PER_PX as int);
    assert((a * (65536 - fx) + a * fx) * (65536 - fy) + (b * (65536 - fx) + b * fx) * fy == (a * (
    65536 - fy) + b * fy) * 65536) by (nonlinear_arith);
}

/// Maps a corrected pixel position in the destination image to an
/// uncorrected source pixel location, with sub-pixel accuracy. The true
/// lens-distortion model is a pluggable collaborator; this placeholder
/// always answers the origin.
pub fn map_dst_pixel(_u: DistPx, _v: DistPx) -> (r: (DistPxFrac, DistPxFrac))
    ensures
        r.0@ == 0,
        r.1@ == 0,
{
    (DistPxFrac::of(0, PX), DistPxFrac::of(0, PX))
}

} // verus!
