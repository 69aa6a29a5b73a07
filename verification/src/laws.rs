//! Laws of the conversion core, stated and proved once over the frame
//! specification functions that every kernel's contract is pinned to.

use vstd::arithmetic::div_mod::lemma_div_pos_is_pos;
use vstd::arithmetic::div_mod::lemma_fundamental_div_mod;
use vstd::arithmetic::div_mod::lemma_mod_bound;
use vstd::arithmetic::div_mod::lemma_multiply_divide_lt;
use vstd::prelude::*;

use crate::color::lemma_gray_pixel;
use crate::convert::convert_spec;
use crate::convert::result_view;
use crate::error::ConversionError;
use crate::kernels::i420_frame;
use crate::kernels::lemma_half_in_half;
use crate::kernels::lemma_index_decompose;
use crate::kernels::lemma_pixel_in_frame;
use crate::kernels::lemma_row_offset_in_bounds;
use crate::kernels::lemma_rowmajor;
use crate::kernels::nv12_frame;
use crate::kernels::source_row;
use crate::kernels::swap_rb_frame;
use crate::kernels::yuyv_frame;
use crate::layout::ceil_div;
use crate::types::default_flags;
use crate::types::ConversionFlags;
use crate::types::PixelFormat;

verus! {

/// An output byte index decomposes into a pixel position and a channel.
proof fn lemma_frame_index(i: int, w: int, h: int)
    requires
        0 <= w,
        0 <= h,
        0 <= i < 3 * w * h,
    ensures
        0 < w,
        0 < h,
        0 <= i % 3 < 3,
        i == 3 * (i / 3) + i % 3,
        0 <= (i / 3) % w < w,
        0 <= (i / 3) / w < h,
        i / 3 == ((i / 3) / w) * w + (i / 3) % w,
{
    assert(0 < w && 0 < h) by (nonlinear_arith)
        requires
            0 <= w,
            0 <= h,
            0 <= i,
            i < 3 * w * h,
    ;
    lemma_fundamental_div_mod(i, 3);
    lemma_mod_bound(i, 3);
    lemma_div_pos_is_pos(i, 3);
    assert(i < 3 * (w * h)) by (nonlinear_arith)
        requires
            i < 3 * w * h,
    ;
    lemma_multiply_divide_lt(i, 3, w * h);
    lemma_fundamental_div_mod(i / 3, w);
    lemma_mod_bound(i / 3, w);
    lemma_div_pos_is_pos(i / 3, w);
    lemma_multiply_divide_lt(i / 3, w, h);
    assert(w * ((i / 3) / w) == ((i / 3) / w) * w) by (nonlinear_arith);
}

/// Exchanging the first and third channel of every pixel twice restores every
/// valid packed 24-bit frame exactly: for a tightly packed frame `x`,
/// `bgr_to_rgb(rgb_to_bgr(x)) == x`, byte for byte.
pub proof fn lemma_swap_rb_round_trip(src: Seq<u8>, w: int, h: int)
    requires
        0 <= w,
        0 <= h,
        src.len() == 3 * w * h,
    ensures
        swap_rb_frame(
            swap_rb_frame(src, 3 * w, w, h, default_flags()),
            3 * w,
            w,
            h,
            default_flags(),
        ) == src,
{
    let inner = swap_rb_frame(src, 3 * w, w, h, default_flags());
    let outer = swap_rb_frame(inner, 3 * w, w, h, default_flags());
    assert forall|i: int| 0 <= i < 3 * w * h implies outer[i] == src[i] by {
        lemma_frame_index(i, w, h);
        let p = i / 3;
        let ch = i % 3;
        let row = p / w;
        let x = p % w;
        let j = row * (3 * w) + 3 * x + (2 - ch);
        assert(row * (3 * w) == 3 * (row * w)) by (nonlinear_arith);
        assert(j == 3 * (row * w + x) + (2 - ch));
        lemma_index_decompose(row * w + x, 2 - ch);
        lemma_rowmajor(row, x, w);
        lemma_pixel_in_frame(row, x, w, h);
        assert(inner[j] == src[row * (3 * w) + 3 * x + ch]);
        assert(row * (3 * w) + 3 * x + ch == i);
    }
    assert(outer =~= src);
}

/// A uniform mid-scale gray YUYV frame (every source byte 128) converts to a
/// frame whose every byte is exactly 128, under either matrix, either row
/// order, and either output channel order: this rounding is bias-free.
pub proof fn lemma_uniform_gray_yuyv(
    src: Seq<u8>,
    stride: int,
    w: int,
    h: int,
    flags: ConversionFlags,
    bgr: bool,
)
    requires
        0 <= w,
        0 <= h,
        stride >= 4 * ceil_div(w, 2),
        stride * h <= src.len(),
        forall|i: int| 0 <= i < src.len() ==> src[i] == 128,
    ensures
        forall|i: int|
            0 <= i < 3 * w * h ==> #[trigger] yuyv_frame(src, stride, w, h, flags, bgr)[i] == 128,
{
    let f = yuyv_frame(src, stride, w, h, flags, bgr);
    assert forall|i: int| 0 <= i < 3 * w * h implies f[i] == 128 by {
        lemma_frame_index(i, w, h);
        let p = i / 3;
        let row = p / w;
        let x = p % w;
        let sr = source_row(flags, row, h);
        lemma_half_in_half(x, w);
        lemma_row_offset_in_bounds(sr, h, stride, 4 * (x / 2) + 3, src.len() as int);
        lemma_mod_bound(x, 2);
        lemma_gray_pixel(flags.bt709);
    }
}

/// A uniform mid-scale gray NV12 frame (every byte of both planes 128)
/// converts to a frame whose every byte is exactly 128.
pub proof fn lemma_uniform_gray_nv12(
    yp: Seq<u8>,
    ys: int,
    uvp: Seq<u8>,
    uvs: int,
    w: int,
    h: int,
    flags: ConversionFlags,
    bgr: bool,
)
    requires
        0 <= w,
        0 <= h,
        ys >= w,
        ys * h <= yp.len(),
        uvs >= 2 * ceil_div(w, 2),
        uvs * ceil_div(h, 2) <= uvp.len(),
        forall|i: int| 0 <= i < yp.len() ==> yp[i] == 128,
        forall|i: int| 0 <= i < uvp.len() ==> uvp[i] == 128,
    ensures
        forall|i: int|
            0 <= i < 3 * w * h ==> #[trigger] nv12_frame(yp, ys, uvp, uvs, w, h, flags, bgr)[i]
                == 128,
{
    let f = nv12_frame(yp, ys, uvp, uvs, w, h, flags, bgr);
    assert forall|i: int| 0 <= i < 3 * w * h implies f[i] == 128 by {
        lemma_frame_index(i, w, h);
        let p = i / 3;
        let row = p / w;
        let x = p % w;
        let sr = source_row(flags, row, h);
        lemma_row_offset_in_bounds(sr, h, ys, x, yp.len() as int);
        lemma_half_in_half(x, w);
        lemma_half_in_half(sr, h);
        lemma_row_offset_in_bounds(sr / 2, ceil_div(h, 2), uvs, 2 * (x / 2) + 1, uvp.len() as int);
        lemma_gray_pixel(flags.bt709);
    }
}

/// A uniform mid-scale gray I420 frame (every byte of all three planes 128)
/// converts to a frame whose every byte is exactly 128.
pub proof fn lemma_uniform_gray_i420(
    yp: Seq<u8>,
    ys: int,
    up: Seq<u8>,
    us: int,
    vp: Seq<u8>,
    vs: int,
    w: int,
    h: int,
    flags: ConversionFlags,
    bgr: bool,
)
    requires
        0 <= w,
        0 <= h,
        ys >= w,
        ys * h <= yp.len(),
        us >= ceil_div(w, 2),
        us * ceil_div(h, 2) <= up.len(),
        vs >= ceil_div(w, 2),
        vs * ceil_div(h, 2) <= vp.len(),
        forall|i: int| 0 <= i < yp.len() ==> yp[i] == 128,
        forall|i: int| 0 <= i < up.len() ==> up[i] == 128,
        forall|i: int| 0 <= i < vp.len() ==> vp[i] == 128,
    ensures
        forall|i: int|
            0 <= i < 3 * w * h
                ==> #[trigger] i420_frame(yp, ys, up, us, vp, vs, w, h, flags, bgr)[i] == 128,
{
    let f = i420_frame(yp, ys, up, us, vp, vs, w, h, flags, bgr);
    assert forall|i: int| 0 <= i < 3 * w * h implies f[i] == 128 by {
        lemma_frame_index(i, w, h);
        let p = i / 3;
        let row = p / w;
        let x = p % w;
        let sr = source_row(flags, row, h);
        lemma_row_offset_in_bounds(sr, h, ys, x, yp.len() as int);
        lemma_half_in_half(x, w);
        lemma_half_in_half(sr, h);
        lemma_row_offset_in_bounds(sr / 2, ceil_div(h, 2), us, x / 2, up.len() as int);
        lemma_row_offset_in_bounds(sr / 2, ceil_div(h, 2), vs, x / 2, vp.len() as int);
        lemma_gray_pixel(flags.bt709);
    }
}

/// Two conversions of the same source agree, whatever backend was selected
/// before each: the contract of `convert` pins its result by the conversion
/// inputs alone, and no backend term occurs in it, so a backend switch
/// between two runs cannot change a single output byte.
pub proof fn lemma_convert_result_determined(
    r1: Result<Vec<u8>, ConversionError>,
    r2: Result<Vec<u8>, ConversionError>,
    src_format: PixelFormat,
    dst_format: PixelFormat,
    p0: Seq<u8>,
    p1: Seq<u8>,
    p2: Seq<u8>,
    s0: int,
    s1: int,
    s2: int,
    w: int,
    h: int,
    flags: ConversionFlags,
)
    requires
        result_view(r1) == convert_spec(src_format, dst_format, p0, p1, p2, s0, s1, s2, w, h,
        flags),
        result_view(r2) == convert_spec(src_format, dst_format, p0, p1, p2, s0, s1, s2, w, h,
        flags),
    ensures
        result_view(r1) == result_view(r2),
{
}

} // verus!
