//! The sampler: bilinear interpolation with toroidal wraparound.
//!
//! Normalized spherical coordinates arrive as 16.16 fixed-point values: a
//! coordinate `u` is carried as the integer `u * SCALE`. The sampler scales
//! by the raster dimension, wraps the result modulo the dimension on both
//! axes — never clamping, so that longitude wraps seamlessly at the 0/1
//! boundary and slight drift outside `[0,1)` is harmless — and blends the
//! four neighbouring texels, rounding to 8 bits by adding one half before
//! truncation. Vertical wraparound near the poles is kept as it is, without
//! a longitude flip: the minor seam it produces at the extreme rows is the
//! documented behaviour of this renderer, not an accident.

use vstd::prelude::*;

verus! {

use vstd::arithmetic::div_mod::lemma_fundamental_div_mod_converse;
use vstd::arithmetic::div_mod::lemma_mod_bound;
use vstd::arithmetic::div_mod::lemma_mod_multiples_vanish;
use crate::MAX_DIM;
use crate::raster::SourceImage;

/// One unit in the 16.16 fixed-point encoding of normalized coordinates.
pub const SCALE: i64 = 65536;

/// Largest magnitude of a fixed-point coordinate the sampler accepts: four
/// whole turns, far beyond the drift a projection can produce.
pub const UV_BOUND: i64 = 262144;

/// The fixed-point texel coordinate `q * dim`, wrapped into
/// `[0, dim * SCALE)`: the whole-texel part is `spec_cell` and the
/// fractional part, in fixed-point units, is `spec_frac`.
pub open spec fn spec_wrapped(q: int, dim: int) -> int {
    (q * dim) % (dim * 65536)
}

/// Index of the texel holding the wrapped coordinate; lies in `[0, dim)`.
pub open spec fn spec_cell(q: int, dim: int) -> int {
    spec_wrapped(q, dim) / 65536
}

/// Fractional offset inside that texel, in `[0, SCALE)`.
pub open spec fn spec_frac(q: int, dim: int) -> int {
    spec_wrapped(q, dim) % 65536
}

/// The wrapped right-hand (or downward) neighbour of texel `i`: the next
/// texel, except that the last texel's neighbour is texel `0` — columns
/// beyond the last never enter a blend.
pub open spec fn spec_wrap_next(i: int, dim: int) -> int {
    if i + 1 == dim {
        0
    } else {
        i + 1
    }
}

/// Linear interpolation between channel values `a` and `b` at fractional
/// offset `f`, scaled by `SCALE`.
pub open spec fn spec_lerp(a: int, b: int, f: int) -> int {
    a * (65536 - f) + b * f
}

/// Bilinear blend of the four neighbouring channel values, rounded to the
/// nearest 8-bit value by adding one half of the scale product before the
/// truncating division.
pub open spec fn spec_bilerp(c00: int, c10: int, c01: int, c11: int, fx: int, fy: int) -> int {
    (spec_lerp(c00, c10, fx) * (65536 - fy) + spec_lerp(c01, c11, fx) * fy + 2147483648)
        / 4294967296
}

/// Channel `c` of the color the sampler returns for fixed-point
/// coordinates `(u_fp, v_fp)` on `img`.
pub open spec fn spec_sample_channel(img: SourceImage, u_fp: int, v_fp: int, c: int) -> int {
    let w = img.width as int;
    let h = img.height as int;
    let x0 = spec_cell(u_fp, w);
    let y0 = spec_cell(v_fp, h);
    let x1 = spec_wrap_next(x0, w);
    let y1 = spec_wrap_next(y0, h);
    spec_bilerp(
        img.spec_channel(x0, y0, c) as int,
        img.spec_channel(x1, y0, c) as int,
        img.spec_channel(x0, y1, c) as int,
        img.spec_channel(x1, y1, c) as int,
        spec_frac(u_fp, w),
        spec_frac(v_fp, h),
    )
}

/// The wrapped texel coordinate always names a texel of the raster, with a
/// fractional part below one texel.
pub proof fn lemma_cell_in_range(q: int, dim: int)
    requires
        1 <= dim,
    ensures
        0 <= spec_cell(q, dim) < dim,
        0 <= spec_frac(q, dim) < 65536,
{
    assert(0 < dim * 65536) by (nonlinear_arith)
        requires
            1 <= dim,
    ;
    lemma_mod_bound(q * dim, dim * 65536);
    let w = spec_wrapped(q, dim);
    lemma_mod_bound(w, 65536);
    assert(0 <= w / 65536 && 65536 * (w / 65536) <= w) by (nonlinear_arith)
        requires
            0 <= w,
    ;
    assert(w / 65536 < dim) by (nonlinear_arith)
        requires
            0 <= w < dim * 65536,
            0 <= w / 65536,
            65536 * (w / 65536) <= w,
    ;
}

/// Wraparound, not clamping: a coordinate that falls inside the last texel
/// of an axis blends that texel with texel `0` — never with any texel
/// beyond the last, which does not exist.
pub proof fn lemma_wrap_blends_last_with_first(q: int, dim: int)
    requires
        1 <= dim,
        spec_cell(q, dim) == dim - 1,
    ensures
        spec_wrap_next(spec_cell(q, dim), dim) == 0,
{
}

/// Computes the wrapped texel index and fractional offset of fixed-point
/// coordinate `q` on an axis of `dim` texels.
fn wrap_coord(q: i64, dim: usize) -> (r: (usize, i64))
    requires
        1 <= dim <= MAX_DIM,
        -UV_BOUND <= q <= UV_BOUND,
    ensures
        r.0 as int == spec_cell(q as int, dim as int),
        r.1 as int == spec_frac(q as int, dim as int),
        r.0 < dim,
        0 <= r.1 < 65536,
{
    let d = dim as i64;
    let m = d * 65536;
    assert((q + 262144) * d <= 524288 * 16777216 && 0 <= (q + 262144) * d
        && (q as int) * d + 4 * (d * 65536) == ((q + 262144) * d)) by (nonlinear_arith)
        requires
            0 <= q + 262144 <= 524288,
            1 <= d <= 16777216,
    ;
    let shifted = (q + 262144) * d;
    proof {
        lemma_mod_multiples_vanish(4, (q as int) * (d as int), (d as int) * 65536);
        lemma_mod_bound((q as int) * (d as int), (d as int) * 65536);
    }
    let w = shifted % m;
    assert(w as int == spec_wrapped(q as int, dim as int));
    proof {
        lemma_cell_in_range(q as int, dim as int);
    }
    let cell = w / 65536;
    let frac = w % 65536;
    (cell as usize, frac)
}

/// Blends one channel of the four neighbouring texels.
fn bilerp_channel(c00: u8, c10: u8, c01: u8, c11: u8, fx: i64, fy: i64) -> (v: u8)
    requires
        0 <= fx < 65536,
        0 <= fy < 65536,
    ensures
        v as int == spec_bilerp(c00 as int, c10 as int, c01 as int, c11 as int, fx as int, fy as int),
{
    assert(0 <= (c00 as int) * (65536 - (fx as int)) + (c10 as int) * (fx as int) <= 255 * 65536
        && 0 <= (c01 as int) * (65536 - (fx as int)) + (c11 as int) * (fx as int) <= 255 * 65536)
        by (nonlinear_arith)
        requires
            0 <= (c00 as int) <= 255,
            0 <= (c10 as int) <= 255,
            0 <= (c01 as int) <= 255,
            0 <= (c11 as int) <= 255,
            0 <= (fx as int) < 65536,
    ;
    let a = (c00 as i64) * (65536 - fx) + (c10 as i64) * fx;
    let b = (c01 as i64) * (65536 - fx) + (c11 as i64) * fx;
    assert(0 <= (a as int) * (65536 - (fy as int)) + (b as int) * (fy as int) <= 255 * 65536 * 65536)
        by (nonlinear_arith)
        requires
            0 <= (a as int) <= 255 * 65536,
            0 <= (b as int) <= 255 * 65536,
            0 <= (fy as int) < 65536,
    ;
    let num = a * (65536 - fy) + b * fy + 2147483648;
    let v = num / 4294967296;
    assert(0 <= (num as int) / 4294967296 <= 255) by (nonlinear_arith)
        requires
            0 <= (num as int) <= 255 * 65536 * 65536 + 2147483648,
    ;
    v as u8
}

/// Samples `img` at fixed-point coordinates `(u_fp, v_fp)`: wraps each axis
/// toroidally, then bilinearly blends the four neighbouring texels of each
/// channel.
pub fn sample(img: &SourceImage, u_fp: i64, v_fp: i64) -> (rgb: (u8, u8, u8))
    requires
        img.wf(),
        -UV_BOUND <= u_fp <= UV_BOUND,
        -UV_BOUND <= v_fp <= UV_BOUND,
    ensures
        rgb.0 as int == spec_sample_channel(*img, u_fp as int, v_fp as int, 0),
        rgb.1 as int == spec_sample_channel(*img, u_fp as int, v_fp as int, 1),
        rgb.2 as int == spec_sample_channel(*img, u_fp as int, v_fp as int, 2),
{
    let (x0, fx) = wrap_coord(u_fp, img.width);
    let (y0, fy) = wrap_coord(v_fp, img.height);
    let x1 = if x0 + 1 == img.width {
        0
    } else {
        x0 + 1
    };
    let y1 = if y0 + 1 == img.height {
        0
    } else {
        y0 + 1
    };
    let r = bilerp_channel(
        img.channel(x0, y0, 0),
        img.channel(x1, y0, 0),
        img.channel(x0, y1, 0),
        img.channel(x1, y1, 0),
        fx,
        fy,
    );
    let g = bilerp_channel(
        img.channel(x0, y0, 1),
        img.channel(x1, y0, 1),
        img.channel(x0, y1, 1),
        img.channel(x1, y1, 1),
        fx,
        fy,
    );
    let b = bilerp_channel(
        img.channel(x0, y0, 2),
        img.channel(x1, y0, 2),
        img.channel(x0, y1, 2),
        img.channel(x1, y1, 2),
        fx,
        fy,
    );
    (r, g, b)
}

/// A blend of four equal channel values returns that value exactly,
/// whatever the fractional offsets.
pub proof fn lemma_bilerp_constant(c: int, fx: int, fy: int)
    requires
        0 <= c <= 255,
        0 <= fx < 65536,
        0 <= fy < 65536,
    ensures
        spec_bilerp(c, c, c, c, fx, fy) == c,
{
    assert(spec_lerp(c, c, fx) == c * 65536) by (nonlinear_arith);
    assert(c * 65536 * (65536 - fy) + c * 65536 * fy + 2147483648 == c * 4294967296 + 2147483648)
        by (nonlinear_arith)
    ;
    lemma_fundamental_div_mod_converse(c * 4294967296 + 2147483648, 4294967296, c, 2147483648);
}

/// Sampler constancy: on a uniformly colored source raster, sampling at any
/// coordinate returns exactly that color's channel value.
pub proof fn lemma_sample_constant(img: SourceImage, u_fp: int, v_fp: int, c: int, v: int)
    requires
        img.wf(),
        0 <= c < 3,
        0 <= v <= 255,
        forall|x: int, y: int|
            0 <= x < img.width && 0 <= y < img.height ==> img.spec_channel(x, y, c) as int == v,
    ensures
        spec_sample_channel(img, u_fp, v_fp, c) == v,
{
    let w = img.width as int;
    let h = img.height as int;
    lemma_cell_in_range(u_fp, w);
    lemma_cell_in_range(v_fp, h);
    let x0 = spec_cell(u_fp, w);
    let y0 = spec_cell(v_fp, h);
    let x1 = spec_wrap_next(x0, w);
    let y1 = spec_wrap_next(y0, h);
    assert(0 <= x1 < w && 0 <= y1 < h);
    lemma_bilerp_constant(v, spec_frac(u_fp, w), spec_frac(v_fp, h));
}

} // verus!
