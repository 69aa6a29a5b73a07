//! Per-pixel YUV to RGB color math.
//!
//! Each output channel follows the standard 16.16 fixed-point integer
//! approximation of the full-range BT.601 (default) or BT.709 conversion
//! matrix, with round-half-up rounding and a final clamp of every channel to
//! `[0, 255]`.  The executable code computes each channel in biased unsigned
//! arithmetic and is proved equal to the direct signed formulas below.

use vstd::arithmetic::div_mod::lemma_basic_div;
use vstd::arithmetic::div_mod::lemma_div_nonincreasing;
use vstd::arithmetic::div_mod::lemma_hoist_over_denominator;
use vstd::arithmetic::div_mod::lemma_multiply_divide_lt;
use vstd::arithmetic::mul::lemma_mul_is_distributive_sub;
use vstd::prelude::*;

verus! {

/// Clamp a channel value to the representable range `[0, 255]`.
pub open spec fn clamp8(x: int) -> int {
    if x < 0 {
        0
    } else if x > 255 {
        255
    } else {
        x
    }
}

/// 16.16 fixed-point V coefficient of the red channel.
pub open spec fn rv_coef(bt709: bool) -> int {
    if bt709 {
        103206
    } else {
        91881
    }
}

/// 16.16 fixed-point U coefficient of the green channel (to be subtracted).
pub open spec fn gu_coef(bt709: bool) -> int {
    if bt709 {
        12276
    } else {
        22554
    }
}

/// 16.16 fixed-point V coefficient of the green channel (to be subtracted).
pub open spec fn gv_coef(bt709: bool) -> int {
    if bt709 {
        30679
    } else {
        46802
    }
}

/// 16.16 fixed-point U coefficient of the blue channel.
pub open spec fn bu_coef(bt709: bool) -> int {
    if bt709 {
        121609
    } else {
        116130
    }
}

/// Rounded chroma contribution to the red channel.
pub open spec fn r_term(v: int, bt709: bool) -> int {
    (rv_coef(bt709) * (v - 128) + 32768) / 65536
}

/// Rounded chroma contribution to the green channel (subtracted from luma).
pub open spec fn g_term(u: int, v: int, bt709: bool) -> int {
    (gu_coef(bt709) * (u - 128) + gv_coef(bt709) * (v - 128) + 32768) / 65536
}

/// Rounded chroma contribution to the blue channel.
pub open spec fn b_term(u: int, bt709: bool) -> int {
    (bu_coef(bt709) * (u - 128) + 32768) / 65536
}

/// Red channel of the converted pixel.
pub open spec fn pixel_r(y: int, u: int, v: int, bt709: bool) -> int {
    clamp8(y + r_term(v, bt709))
}

/// Green channel of the converted pixel.
pub open spec fn pixel_g(y: int, u: int, v: int, bt709: bool) -> int {
    clamp8(y - g_term(u, v, bt709))
}

/// Blue channel of the converted pixel.
pub open spec fn pixel_b(y: int, u: int, v: int, bt709: bool) -> int {
    clamp8(y + b_term(u, bt709))
}

/// Channel `ch` (0, 1 or 2) of the converted pixel, in RGB order, or in BGR
/// order when `bgr` is set.
pub open spec fn yuv_channel(y: int, u: int, v: int, bt709: bool, ch: int, bgr: bool) -> int {
    let c = if bgr {
        2 - ch
    } else {
        ch
    };
    if c == 0 {
        pixel_r(y, u, v, bt709)
    } else if c == 1 {
        pixel_g(y, u, v, bt709)
    } else {
        pixel_b(y, u, v, bt709)
    }
}

/// Biased fixed-point quotient of a one-coefficient chroma term.
///
/// The bias `k` folds the rounding constant, the `- 128` chroma offset and a
/// `256 * 65536` shift into one nonnegative addend, so the whole computation
/// stays in unsigned arithmetic.
fn term_quotient(coef: u32, c: u8, k: u32) -> (q: u32)
    requires
        coef <= 130000,
        k <= 17000000,
        k == 32768 + 16777216 - coef * 128,
    ensures
        q == (coef * (c as int - 128) + 32768) / 65536 + 256,
        q <= 800,
{
    proof {
        assert(coef * (c as int) <= 130000 * 255) by (nonlinear_arith)
            requires
                coef <= 130000,
                0 <= c as int <= 255,
        ;
    }
    let biased: u32 = coef * (c as u32) + k;
    let q: u32 = biased / 65536;
    proof {
        let x = coef * (c as int - 128) + 32768;
        lemma_mul_is_distributive_sub(coef as int, c as int, 128);
        assert(biased == x + 256 * 65536);
        lemma_hoist_over_denominator(x, 256, 65536);
        lemma_multiply_divide_lt(biased as int, 65536, 801);
    }
    q
}

/// Biased fixed-point quotient of the two-coefficient green chroma term.
fn green_quotient(cu: u32, cv: u32, u: u8, v: u8, k: u32)  -> (q: u32)
    requires
        cu + cv <= 70000,
        k <= 11400000,
        k == 32768 + 16777216 - (cu + cv) * 128,
    ensures
        q == (cu * (u as int - 128) + cv * (v as int - 128) + 32768) / 65536 + 256,
        q < 512,
{
    proof {
        assert(cu * (u as int) <= cu * 255) by (nonlinear_arith)
            requires
                0 <= cu,
                0 <= u as int <= 255,
        ;
        assert(cv * (v as int) <= cv * 255) by (nonlinear_arith)
            requires
                0 <= cv,
                0 <= v as int <= 255,
        ;
        assert(cu * 255 + cv * 255 == (cu + cv) * 255) by (nonlinear_arith);
        assert((cu + cv) * 255 <= 70000 * 255) by (nonlinear_arith)
            requires
                0 <= cu + cv <= 70000,
        ;
    }
    let biased: u32 = cu * (u as u32) + cv * (v as u32) + k;
    let q: u32 = biased / 65536;
    proof {
        let x = cu * (u as int - 128) + cv * (v as int - 128) + 32768;
        lemma_mul_is_distributive_sub(cu as int, u as int, 128);
        lemma_mul_is_distributive_sub(cv as int, v as int, 128);
        assert((cu + cv) * 128 == cu * 128 + cv * 128) by (nonlinear_arith);
        assert(biased == x + 256 * 65536);
        lemma_hoist_over_denominator(x, 256, 65536);
        lemma_multiply_divide_lt(biased as int, 65536, 512);
    }
    q
}

/// Clamp a channel value carried with a `+256` offset.
fn clamp_offset(pre: u32) -> (r: u8)
    requires
        pre <= 100000,
    ensures
        r == clamp8(pre as int - 256),
{
    if pre < 256 {
        0
    } else if pre > 511 {
        255
    } else {
        (pre - 256) as u8
    }
}

/// Convert one YUV sample triple to an RGB triple.
pub fn yuv_to_rgb_pixel(y: u8, u: u8, v: u8, bt709: bool) -> (rgb: (u8, u8, u8))
    ensures
        rgb.0 == pixel_r(y as int, u as int, v as int, bt709),
        rgb.1 == pixel_g(y as int, u as int, v as int, bt709),
        rgb.2 == pixel_b(y as int, u as int, v as int, bt709),
{
    let (qr, qg, qb): (u32, u32, u32) = if bt709 {
        (
            term_quotient(103206, v, 3599616),
            green_quotient(12276, 30679, u, v, 11311744),
            term_quotient(121609, u, 1244032),
        )
    } else {
        (
            term_quotient(91881, v, 5049216),
            green_quotient(22554, 46802, u, v, 7932416),
            term_quotient(116130, u, 1945344),
        )
    };
    let r = clamp_offset(y as u32 + qr);
    let g = clamp_offset(y as u32 + 512 - qg);
    let b = clamp_offset(y as u32 + qb);
    (r, g, b)
}

/// A mid-scale gray sample (luma 128, both chroma channels 128) converts to
/// the exact mid-scale gray pixel (128, 128, 128) under either matrix: the
/// chroma terms vanish and this rounding is bias-free.
pub proof fn lemma_gray_pixel(bt709: bool)
    ensures
        pixel_r(128, 128, 128, bt709) == 128,
        pixel_g(128, 128, 128, bt709) == 128,
        pixel_b(128, 128, 128, bt709) == 128,
{
    lemma_basic_div(32768, 65536);
}

} // verus!
