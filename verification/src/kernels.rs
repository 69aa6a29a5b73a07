//! Conversion kernels.
//!
//! Each kernel walks the frame row-major, advancing by the declared stride —
//! never by the tight row size — and produces a tightly packed destination of
//! `3 * width * height` bytes.  The output is pinned byte for byte by a
//! specification function over the source planes: the per-pixel frame
//! functions below are the single statement of what every kernel computes.

use vstd::arithmetic::div_mod::lemma_fundamental_div_mod;
use vstd::arithmetic::div_mod::lemma_fundamental_div_mod_converse_div;
use vstd::arithmetic::div_mod::lemma_fundamental_div_mod_converse_mod;
use vstd::arithmetic::div_mod::lemma_mod_bound;
use vstd::prelude::*;

use crate::color::yuv_channel;
use crate::color::yuv_to_rgb_pixel;
use crate::layout::ceil_div;
use crate::types::ConversionFlags;

verus! {

/// Row of the source a destination row reads, honoring the row order flag.
pub open spec fn source_row(flags: ConversionFlags, row: int, height: int) -> int {
    if flags.bottom_to_top {
        height - 1 - row
    } else {
        row
    }
}

/// A packed 3-byte-per-pixel frame with channels 0 and 2 exchanged and
/// channel 1 kept: the one byte permutation between RGB24 and BGR24, stated
/// once for both directions.
pub open spec fn swap_rb_frame(
    src: Seq<u8>,
    stride: int,
    w: int,
    h: int,
    flags: ConversionFlags,
) -> Seq<u8> {
    Seq::new((3 * w * h) as nat, |i: int| {
        let p = i / 3;
        let ch = i % 3;
        let row = p / w;
        let x = p % w;
        let sr = source_row(flags, row, h);
        src[sr * stride + 3 * x + (2 - ch)]
    })
}

/// Quotient and remainder of a channel index by 3.
pub(crate) proof fn lemma_index_decompose(p: int, k: int)
    requires
        0 <= k < 3,
        0 <= p,
    ensures
        (3 * p + k) / 3 == p,
        (3 * p + k) % 3 == k,
{
    assert(3 * p + k == p * 3 + k);
    lemma_fundamental_div_mod_converse_div(3 * p + k, 3, p, k);
    lemma_fundamental_div_mod_converse_mod(3 * p + k, 3, p, k);
}

/// Quotient and remainder of a row-major pixel index by the width.
pub(crate) proof fn lemma_rowmajor(row: int, x: int, w: int)
    requires
        0 <= x < w,
        0 <= row,
    ensures
        (row * w + x) / w == row,
        (row * w + x) % w == x,
{
    lemma_fundamental_div_mod_converse_div(row * w + x, w, row, x);
    lemma_fundamental_div_mod_converse_mod(row * w + x, w, row, x);
}

/// Extending a prefix of a sequence by its next element.
pub(crate) proof fn lemma_take_one_more(s: Seq<u8>, k: int)
    requires
        0 <= k < s.len(),
    ensures
        s.take(k + 1) == s.take(k).push(s[k]),
{
    assert(s.take(k + 1) =~= s.take(k).push(s[k]));
}

/// A strided row offset stays inside a buffer that holds every row.
pub(crate) proof fn lemma_row_offset_in_bounds(row: int, h: int, stride: int, off: int, len: int)
    requires
        0 <= row < h,
        0 <= off < stride,
        stride * h <= len,
    ensures
        0 <= row * stride + off,
        row * stride + off < len,
{
    assert(0 <= row * stride) by (nonlinear_arith)
        requires
            0 <= row,
            0 <= stride,
    ;
    assert(row * stride + off < (row + 1) * stride) by (nonlinear_arith)
        requires
            off < stride,
    ;
    assert((row + 1) * stride <= stride * h) by (nonlinear_arith)
        requires
            row + 1 <= h,
            0 <= stride,
    ;
}

/// A pixel index lies inside the row-major frame.
pub(crate) proof fn lemma_pixel_in_frame(row: int, x: int, w: int, h: int)
    requires
        0 <= x < w,
        0 <= row < h,
    ensures
        0 <= 3 * (row * w + x),
        3 * (row * w + x) + 2 < 3 * w * h,
{
    assert(3 * (row * w + x) + 2 < 3 * w * h) by (nonlinear_arith)
        requires
            0 <= x < w,
            0 <= row < h,
    ;
    assert(0 <= 3 * (row * w + x)) by (nonlinear_arith)
        requires
            0 <= x,
            0 <= row,
            0 <= w,
    ;
}

/// Exchange channels 0 and 2 of a packed 3-byte-per-pixel frame.
pub(crate) fn swap_rb(src: &[u8], stride: usize, w: u32, h: u32, flags: ConversionFlags) -> (out:
    Vec<u8>)
    requires
        stride >= 3 * (w as int),
        (stride as int) * (h as int) <= src@.len(),
        3 * (w as int) * (h as int) <= usize::MAX,
    ensures
        out@ == swap_rb_frame(src@, stride as int, w as int, h as int, flags),
{
    let ghost gspec = swap_rb_frame(src@, stride as int, w as int, h as int, flags);
    let ghost wi = w as int;
    let ghost hi = h as int;
    let n = src.len();
    let mut out: Vec<u8> = Vec::new();
    let mut row: u32 = 0;
    while row < h
        invariant
            row <= h,
            stride >= 3 * wi,
            n == src@.len(),
            (stride as int) * hi <= src@.len(),
            3 * wi * hi <= usize::MAX,
            wi == w as int,
            hi == h as int,
            gspec == swap_rb_frame(src@, stride as int, wi, hi, flags),
            gspec.len() == 3 * wi * hi,
            out@ == gspec.take(3 * ((row as int) * wi)),
        decreases h - row,
    {
        let sr: u32 = if flags.bottom_to_top {
            h - 1 - row
        } else {
            row
        };
        let mut x: u32 = 0;
        proof {
            assert(3 * ((row as int) * wi) == 3 * ((row as int) * wi + 0));
        }
        while x < w
            invariant
                x <= w,
                row < h,
                sr as int == source_row(flags, row as int, hi),
                stride >= 3 * wi,
                n == src@.len(),
                (stride as int) * hi <= src@.len(),
                3 * wi * hi <= usize::MAX,
                wi == w as int,
                hi == h as int,
                gspec == swap_rb_frame(src@, stride as int, wi, hi, flags),
                gspec.len() == 3 * wi * hi,
                out@ == gspec.take(3 * ((row as int) * wi + (x as int))),
            decreases w - x,
        {
            let ghost p = (row as int) * wi + (x as int);
            proof {
                lemma_pixel_in_frame(row as int, x as int, wi, hi);
                lemma_pixel_in_frame(sr as int, x as int, wi, hi);
                lemma_row_offset_in_bounds(
                    sr as int,
                    hi,
                    stride as int,
                    3 * (x as int) + 2,
                    src@.len() as int,
                );
            }
            let base = (sr as usize) * stride + 3 * (x as usize);
            let b0 = src[base];
            let b1 = src[base + 1];
            let b2 = src[base + 2];
            proof {
                lemma_rowmajor(row as int, x as int, wi);
                lemma_index_decompose(p, 0);
                lemma_index_decompose(p, 1);
                lemma_index_decompose(p, 2);
                assert(gspec[3 * p] == b2);
                assert(gspec[3 * p + 1] == b1);
                assert(gspec[3 * p + 2] == b0);
                lemma_take_one_more(gspec, 3 * p);
                lemma_take_one_more(gspec, 3 * p + 1);
                lemma_take_one_more(gspec, 3 * p + 2);
            }
            out.push(b2);
            out.push(b1);
            out.push(b0);
            proof {
                assert(out@ == gspec.take(3 * p + 3));
                assert(3 * p + 3 == 3 * ((row as int) * wi + (x as int) + 1));
            }
            x += 1;
        }
        proof {
            assert((row as int) * wi + wi == ((row as int) + 1) * wi) by (nonlinear_arith);
        }
        row += 1;
    }
    proof {
        assert((row as int) * wi == wi * hi) by (nonlinear_arith)
            requires
                row as int == hi,
        ;
        assert(3 * (wi * hi) == 3 * wi * hi) by (nonlinear_arith);
        assert(out@ == gspec.take(3 * (wi * hi)));
        assert(gspec.take(3 * (wi * hi)) =~= gspec);
    }
    out
}

/// Halving a coordinate keeps it inside the rounded-up half extent.
pub(crate) proof fn lemma_half_in_half(x: int, w: int)
    requires
        0 <= x < w,
    ensures
        0 <= x / 2,
        x / 2 < ceil_div(w, 2),
{
    lemma_fundamental_div_mod(x, 2);
    lemma_mod_bound(x, 2);
    lemma_fundamental_div_mod(w, 2);
    lemma_mod_bound(w, 2);
}

/// A packed 4:2:2 frame in YUYV byte order converted to packed 24-bit RGB
/// (or BGR): two horizontally adjacent pixels share one chroma pair,
/// nearest-neighbor, and each byte of the output is one converted channel.
pub open spec fn yuyv_frame(
    src: Seq<u8>,
    stride: int,
    w: int,
    h: int,
    flags: ConversionFlags,
    bgr: bool,
) -> Seq<u8> {
    Seq::new((3 * w * h) as nat, |i: int| {
        let p = i / 3;
        let ch = i % 3;
        let row = p / w;
        let x = p % w;
        let sr = source_row(flags, row, h);
        let base = sr * stride + 4 * (x / 2);
        let y = src[base + 2 * (x % 2)];
        let u = src[base + 1];
        let v = src[base + 3];
        yuv_channel(y as int, u as int, v as int, flags.bt709, ch, bgr) as u8
    })
}

/// A semi-planar 4:2:0 frame (full-resolution luma plane, interleaved
/// half-resolution chroma plane) converted to packed 24-bit RGB or BGR:
/// each 2x2 luma block shares one chroma pair, nearest-neighbor.
pub open spec fn nv12_frame(
    yp: Seq<u8>,
    ys: int,
    uvp: Seq<u8>,
    uvs: int,
    w: int,
    h: int,
    flags: ConversionFlags,
    bgr: bool,
) -> Seq<u8> {
    Seq::new((3 * w * h) as nat, |i: int| {
        let p = i / 3;
        let ch = i % 3;
        let row = p / w;
        let x = p % w;
        let sr = source_row(flags, row, h);
        let y = yp[sr * ys + x];
        let cbase = (sr / 2) * uvs + 2 * (x / 2);
        let u = uvp[cbase];
        let v = uvp[cbase + 1];
        yuv_channel(y as int, u as int, v as int, flags.bt709, ch, bgr) as u8
    })
}

/// A fully planar 4:2:0 frame (separate U and V planes at half resolution
/// both axes) converted to packed 24-bit RGB or BGR: each 2x2 luma block
/// shares one chroma pair, nearest-neighbor.
pub open spec fn i420_frame(
    yp: Seq<u8>,
    ys: int,
    up: Seq<u8>,
    us: int,
    vp: Seq<u8>,
    vs: int,
    w: int,
    h: int,
    flags: ConversionFlags,
    bgr: bool,
) -> Seq<u8> {
    Seq::new((3 * w * h) as nat, |i: int| {
        let p = i / 3;
        let ch = i % 3;
        let row = p / w;
        let x = p % w;
        let sr = source_row(flags, row, h);
        let y = yp[sr * ys + x];
        let u = up[(sr / 2) * us + x / 2];
        let v = vp[(sr / 2) * vs + x / 2];
        yuv_channel(y as int, u as int, v as int, flags.bt709, ch, bgr) as u8
    })
}

/// Convert a packed 4:2:2 YUYV frame to packed 24-bit RGB or BGR.
pub(crate) fn yuyv_kernel(
    src: &[u8],
    stride: usize,
    w: u32,
    h: u32,
    flags: ConversionFlags,
    bgr: bool,
) -> (out: Vec<u8>)
    requires
        stride >= 4 * ceil_div(w as int, 2),
        (stride as int) * (h as int) <= src@.len(),
        3 * (w as int) * (h as int) <= usize::MAX,
    ensures
        out@ == yuyv_frame(src@, stride as int, w as int, h as int, flags, bgr),
{
    let ghost gspec = yuyv_frame(src@, stride as int, w as int, h as int, flags, bgr);
    let ghost wi = w as int;
    let ghost hi = h as int;
    let n = src.len();
    let mut out: Vec<u8> = Vec::new();
    let mut row: u32 = 0;
    while row < h
        invariant
            row <= h,
            stride >= 4 * ceil_div(wi, 2),
            n == src@.len(),
            (stride as int) * hi <= src@.len(),
            3 * wi * hi <= usize::MAX,
            wi == w as int,
            hi == h as int,
            gspec == yuyv_frame(src@, stride as int, wi, hi, flags, bgr),
            gspec.len() == 3 * wi * hi,
            out@ == gspec.take(3 * ((row as int) * wi)),
        decreases h - row,
    {
        let sr: u32 = if flags.bottom_to_top {
            h - 1 - row
        } else {
            row
        };
        let mut x: u32 = 0;
        proof {
            assert(3 * ((row as int) * wi) == 3 * ((row as int) * wi + 0));
        }
        while x < w
            invariant
                x <= w,
                row < h,
                sr as int == source_row(flags, row as int, hi),
                stride >= 4 * ceil_div(wi, 2),
                n == src@.len(),
                (stride as int) * hi <= src@.len(),
                3 * wi * hi <= usize::MAX,
                wi == w as int,
                hi == h as int,
                gspec == yuyv_frame(src@, stride as int, wi, hi, flags, bgr),
                gspec.len() == 3 * wi * hi,
                out@ == gspec.take(3 * ((row as int) * wi + (x as int))),
            decreases w - x,
        {
            let ghost p = (row as int) * wi + (x as int);
            proof {
                lemma_pixel_in_frame(row as int, x as int, wi, hi);
                lemma_half_in_half(x as int, wi);
                lemma_mod_bound(x as int, 2);
                lemma_row_offset_in_bounds(
                    sr as int,
                    hi,
                    stride as int,
                    4 * ((x as int) / 2) + 3,
                    src@.len() as int,
                );
            }
            let g2 = (x as usize) / 2;
            let base = (sr as usize) * stride + 4 * g2;
            let ysample = src[base + 2 * ((x as usize) % 2)];
            let usample = src[base + 1];
            let vsample = src[base + 3];
            let px = yuv_to_rgb_pixel(ysample, usample, vsample, flags.bt709);
            let (c0, c1, c2) = if bgr {
                (px.2, px.1, px.0)
            } else {
                (px.0, px.1, px.2)
            };
            proof {
                lemma_rowmajor(row as int, x as int, wi);
                lemma_index_decompose(p, 0);
                lemma_index_decompose(p, 1);
                lemma_index_decompose(p, 2);
                assert(gspec[3 * p] == c0);
                assert(gspec[3 * p + 1] == c1);
                assert(gspec[3 * p + 2] == c2);
                lemma_take_one_more(gspec, 3 * p);
                lemma_take_one_more(gspec, 3 * p + 1);
                lemma_take_one_more(gspec, 3 * p + 2);
            }
            out.push(c0);
            out.push(c1);
            out.push(c2);
            proof {
                assert(out@ == gspec.take(3 * p + 3));
                assert(3 * p + 3 == 3 * ((row as int) * wi + (x as int) + 1));
            }
            x += 1;
        }
        proof {
            assert((row as int) * wi + wi == ((row as int) + 1) * wi) by (nonlinear_arith);
        }
        row += 1;
    }
    proof {
        assert((row as int) * wi == wi * hi) by (nonlinear_arith)
            requires
                row as int == hi,
        ;
        assert(3 * (wi * hi) == 3 * wi * hi) by (nonlinear_arith);
        assert(out@ == gspec.take(3 * (wi * hi)));
        assert(gspec.take(3 * (wi * hi)) =~= gspec);
    }
    out
}

/// Convert a semi-planar 4:2:0 NV12 frame to packed 24-bit RGB or BGR.
pub(crate) fn nv12_kernel(
    yp: &[u8],
    ys: usize,
    uvp: &[u8],
    uvs: usize,
    w: u32,
    h: u32,
    flags: ConversionFlags,
    bgr: bool,
) -> (out: Vec<u8>)
    requires
        ys >= w,
        (ys as int) * (h as int) <= yp@.len(),
        uvs >= 2 * ceil_div(w as int, 2),
        (uvs as int) * ceil_div(h as int, 2) <= uvp@.len(),
        3 * (w as int) * (h as int) <= usize::MAX,
    ensures
        out@ == nv12_frame(yp@, ys as int, uvp@, uvs as int, w as int, h as int, flags, bgr),
{
    let ghost gspec = nv12_frame(yp@, ys as int, uvp@, uvs as int, w as int, h as int, flags, bgr);
    let ghost wi = w as int;
    let ghost hi = h as int;
    let yn = yp.len();
    let un = uvp.len();
    let mut out: Vec<u8> = Vec::new();
    let mut row: u32 = 0;
    while row < h
        invariant
            row <= h,
            ys >= w,
            yn == yp@.len(),
            un == uvp@.len(),
            (ys as int) * hi <= yp@.len(),
            uvs >= 2 * ceil_div(wi, 2),
            (uvs as int) * ceil_div(hi, 2) <= uvp@.len(),
            3 * wi * hi <= usize::MAX,
            wi == w as int,
            hi == h as int,
            gspec == nv12_frame(yp@, ys as int, uvp@, uvs as int, wi, hi, flags, bgr),
            gspec.len() == 3 * wi * hi,
            out@ == gspec.take(3 * ((row as int) * wi)),
        decreases h - row,
    {
        let sr: u32 = if flags.bottom_to_top {
            h - 1 - row
        } else {
            row
        };
        let mut x: u32 = 0;
        proof {
            assert(3 * ((row as int) * wi) == 3 * ((row as int) * wi + 0));
        }
        while x < w
            invariant
                x <= w,
                row < h,
                sr as int == source_row(flags, row as int, hi),
                ys >= w,
                yn == yp@.len(),
                un == uvp@.len(),
                (ys as int) * hi <= yp@.len(),
                uvs >= 2 * ceil_div(wi, 2),
                (uvs as int) * ceil_div(hi, 2) <= uvp@.len(),
                3 * wi * hi <= usize::MAX,
                wi == w as int,
                hi == h as int,
                gspec == nv12_frame(yp@, ys as int, uvp@, uvs as int, wi, hi, flags, bgr),
                gspec.len() == 3 * wi * hi,
                out@ == gspec.take(3 * ((row as int) * wi + (x as int))),
            decreases w - x,
        {
            let ghost p = (row as int) * wi + (x as int);
            proof {
                lemma_pixel_in_frame(row as int, x as int, wi, hi);
                lemma_row_offset_in_bounds(sr as int, hi, ys as int, x as int, yp@.len() as int);
                lemma_half_in_half(x as int, wi);
                lemma_half_in_half(sr as int, hi);
                lemma_row_offset_in_bounds(
                    (sr as int) / 2,
                    ceil_div(hi, 2),
                    uvs as int,
                    2 * ((x as int) / 2) + 1,
                    uvp@.len() as int,
                );
            }
            let ysample = yp[(sr as usize) * ys + (x as usize)];
            let cbase = ((sr / 2) as usize) * uvs + 2 * ((x as usize) / 2);
            let usample = uvp[cbase];
            let vsample = uvp[cbase + 1];
            let px = yuv_to_rgb_pixel(ysample, usample, vsample, flags.bt709);
            let (c0, c1, c2) = if bgr {
                (px.2, px.1, px.0)
            } else {
                (px.0, px.1, px.2)
            };
            proof {
                lemma_rowmajor(row as int, x as int, wi);
                lemma_index_decompose(p, 0);
                lemma_index_decompose(p, 1);
                lemma_index_decompose(p, 2);
                assert(gspec[3 * p] == c0);
                assert(gspec[3 * p + 1] == c1);
                assert(gspec[3 * p + 2] == c2);
                lemma_take_one_more(gspec, 3 * p);
                lemma_take_one_more(gspec, 3 * p + 1);
                lemma_take_one_more(gspec, 3 * p + 2);
            }
            out.push(c0);
            out.push(c1);
            out.push(c2);
            proof {
                assert(out@ == gspec.take(3 * p + 3));
                assert(3 * p + 3 == 3 * ((row as int) * wi + (x as int) + 1));
            }
            x += 1;
        }
        proof {
            assert((row as int) * wi + wi == ((row as int) + 1) * wi) by (nonlinear_arith);
        }
        row += 1;
    }
    proof {
        assert((row as int) * wi == wi * hi) by (nonlinear_arith)
            requires
                row as int == hi,
        ;
        assert(3 * (wi * hi) == 3 * wi * hi) by (nonlinear_arith);
        assert(out@ == gspec.take(3 * (wi * hi)));
        assert(gspec.take(3 * (wi * hi)) =~= gspec);
    }
    out
}

/// Convert a fully planar 4:2:0 I420 frame to packed 24-bit RGB or BGR.
pub(crate) fn i420_kernel(
    yp: &[u8],
    ys: usize,
    up: &[u8],
    us: usize,
    vp: &[u8],
    vs: usize,
    w: u32,
    h: u32,
    flags: ConversionFlags,
    bgr: bool,
) -> (out: Vec<u8>)
    requires
        ys >= w,
        (ys as int) * (h as int) <= yp@.len(),
        us >= ceil_div(w as int, 2),
        (us as int) * ceil_div(h as int, 2) <= up@.len(),
        vs >= ceil_div(w as int, 2),
        (vs as int) * ceil_div(h as int, 2) <= vp@.len(),
        3 * (w as int) * (h as int) <= usize::MAX,
    ensures
        out@ == i420_frame(
            yp@,
            ys as int,
            up@,
            us as int,
            vp@,
            vs as int,
            w as int,
            h as int,
            flags,
            bgr,
        ),
{
    let ghost gspec = i420_frame(
        yp@,
        ys as int,
        up@,
        us as int,
        vp@,
        vs as int,
        w as int,
        h as int,
        flags,
        bgr,
    );
    let ghost wi = w as int;
    let ghost hi = h as int;
    let yn = yp.len();
    let un = up.len();
    let vn = vp.len();
    let mut out: Vec<u8> = Vec::new();
    let mut row: u32 = 0;
    while row < h
        invariant
            row <= h,
            ys >= w,
            yn == yp@.len(),
            un == up@.len(),
            vn == vp@.len(),
            (ys as int) * hi <= yp@.len(),
            us >= ceil_div(wi, 2),
            (us as int) * ceil_div(hi, 2) <= up@.len(),
            vs >= ceil_div(wi, 2),
            (vs as int) * ceil_div(hi, 2) <= vp@.len(),
            3 * wi * hi <= usize::MAX,
            wi == w as int,
            hi == h as int,
            gspec == i420_frame(yp@, ys as int, up@, us as int, vp@, vs as int, wi, hi, flags,
            bgr),
            gspec.len() == 3 * wi * hi,
            out@ == gspec.take(3 * ((row as int) * wi)),
        decreases h - row,
    {
        let sr: u32 = if flags.bottom_to_top {
            h - 1 - row
        } else {
            row
        };
        let mut x: u32 = 0;
        proof {
            assert(3 * ((row as int) * wi) == 3 * ((row as int) * wi + 0));
        }
        while x < w
            invariant
                x <= w,
                row < h,
                sr as int == source_row(flags, row as int, hi),
                ys >= w,
                yn == yp@.len(),
                un == up@.len(),
                vn == vp@.len(),
                (ys as int) * hi <= yp@.len(),
                us >= ceil_div(wi, 2),
                (us as int) * ceil_div(hi, 2) <= up@.len(),
                vs >= ceil_div(wi, 2),
                (vs as int) * ceil_div(hi, 2) <= vp@.len(),
                3 * wi * hi <= usize::MAX,
                wi == w as int,
                hi == h as int,
                gspec == i420_frame(yp@, ys as int, up@, us as int, vp@, vs as int, wi, hi,
                flags, bgr),
                gspec.len() == 3 * wi * hi,
                out@ == gspec.take(3 * ((row as int) * wi + (x as int))),
            decreases w - x,
        {
            let ghost p = (row as int) * wi + (x as int);
            proof {
                lemma_pixel_in_frame(row as int, x as int, wi, hi);
                lemma_row_offset_in_bounds(sr as int, hi, ys as int, x as int, yp@.len() as int);
                lemma_half_in_half(x as int, wi);
                lemma_half_in_half(sr as int, hi);
                lemma_row_offset_in_bounds(
                    (sr as int) / 2,
                    ceil_div(hi, 2),
                    us as int,
                    (x as int) / 2,
                    up@.len() as int,
                );
                lemma_row_offset_in_bounds(
                    (sr as int) / 2,
                    ceil_div(hi, 2),
                    vs as int,
                    (x as int) / 2,
                    vp@.len() as int,
                );
            }
            let ysample = yp[(sr as usize) * ys + (x as usize)];
            let crow = (sr / 2) as usize;
            let ccol = (x as usize) / 2;
            let usample = up[crow * us + ccol];
            let vsample = vp[crow * vs + ccol];
            let px = yuv_to_rgb_pixel(ysample, usample, vsample, flags.bt709);
            let (c0, c1, c2) = if bgr {
                (px.2, px.1, px.0)
            } else {
                (px.0, px.1, px.2)
            };
            proof {
                lemma_rowmajor(row as int, x as int, wi);
                lemma_index_decompose(p, 0);
                lemma_index_decompose(p, 1);
                lemma_index_decompose(p, 2);
                assert(gspec[3 * p] == c0);
                assert(gspec[3 * p + 1] == c1);
                assert(gspec[3 * p + 2] == c2);
                lemma_take_one_more(gspec, 3 * p);
                lemma_take_one_more(gspec, 3 * p + 1);
                lemma_take_one_more(gspec, 3 * p + 2);
            }
            out.push(c0);
            out.push(c1);
            out.push(c2);
            proof {
                assert(out@ == gspec.take(3 * p + 3));
                assert(3 * p + 3 == 3 * ((row as int) * wi + (x as int) + 1));
            }
            x += 1;
        }
        proof {
            assert((row as int) * wi + wi == ((row as int) + 1) * wi) by (nonlinear_arith);
        }
        row += 1;
    }
    proof {
        assert((row as int) * wi == wi * hi) by (nonlinear_arith)
            requires
                row as int == hi,
        ;
        assert(3 * (wi * hi) == 3 * wi * hi) by (nonlinear_arith);
        assert(out@ == gspec.take(3 * (wi * hi)));
        assert(gspec.take(3 * (wi * hi)) =~= gspec);
    }
    out
}

} // verus!
