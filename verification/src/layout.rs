//! Format descriptor table and buffer validation.
//!
//! Every conversion consults this module before touching a source plane: a
//! plane passes only if its declared stride covers the tight row size of the
//! format and the buffer holds `stride` bytes for every logical row of the
//! plane.  Undersized buffers are rejected before any destination byte is
//! produced.

use vstd::arithmetic::div_mod::lemma_div_is_ordered;
use vstd::arithmetic::div_mod::lemma_div_is_ordered_by_denominator;
use vstd::arithmetic::div_mod::lemma_div_nonincreasing;
use vstd::prelude::*;

use crate::error::ConversionError;
use crate::types::PixelFormat;

verus! {

/// Static metadata describing how a pixel format lays out its memory.
#[derive(Debug, Clone, Copy, PartialEq, Eq, Structural)]
pub struct FormatDescriptor {
    /// Number of planes (1 to 3; 0 for the unknown format).
    pub plane_count: u32,
    /// Horizontal chroma subsampling factor (1 or 2).
    pub subsample_x: u32,
    /// Vertical chroma subsampling factor (1 or 2).
    pub subsample_y: u32,
    /// Bytes one pixel group occupies in plane 0.
    pub bytes_per_group: u32,
    /// Pixels one plane-0 group covers.
    pub group_width: u32,
}

impl FormatDescriptor {
    /// The descriptor table: one fixed entry per pixel format.
    pub open spec fn of(format: PixelFormat) -> FormatDescriptor {
        match format {
            PixelFormat::Unknown => FormatDescriptor {
                plane_count: 0,
                subsample_x: 1,
                subsample_y: 1,
                bytes_per_group: 0,
                group_width: 1,
            },
            PixelFormat::Nv12 | PixelFormat::Nv12F => FormatDescriptor {
                plane_count: 2,
                subsample_x: 2,
                subsample_y: 2,
                bytes_per_group: 1,
                group_width: 1,
            },
            PixelFormat::I420 | PixelFormat::I420F => FormatDescriptor {
                plane_count: 3,
                subsample_x: 2,
                subsample_y: 2,
                bytes_per_group: 1,
                group_width: 1,
            },
            PixelFormat::Yuyv | PixelFormat::YuyvF | PixelFormat::Uyvy | PixelFormat::UyvyF
                => FormatDescriptor {
                plane_count: 1,
                subsample_x: 2,
                subsample_y: 1,
                bytes_per_group: 4,
                group_width: 2,
            },
            PixelFormat::Rgb24 | PixelFormat::Bgr24 => FormatDescriptor {
                plane_count: 1,
                subsample_x: 1,
                subsample_y: 1,
                bytes_per_group: 3,
                group_width: 1,
            },
            PixelFormat::Rgba32 | PixelFormat::Bgra32 => FormatDescriptor {
                plane_count: 1,
                subsample_x: 1,
                subsample_y: 1,
                bytes_per_group: 4,
                group_width: 1,
            },
        }
    }
}

/// Quotient of `x / d` rounded up.
pub open spec fn ceil_div(x: int, d: int) -> int {
    x / d + if x % d != 0 {
        1int
    } else {
        0int
    }
}

/// Logical number of rows of one plane: full height for plane 0, vertically
/// subsampled height for a chroma plane, zero for a plane the format does not
/// have.
pub open spec fn plane_height(format: PixelFormat, plane: int, height: int) -> int {
    let d = FormatDescriptor::of(format);
    if plane < 0 || plane >= d.plane_count {
        0
    } else if plane == 0 {
        height
    } else {
        ceil_div(height, d.subsample_y as int)
    }
}

/// Tight row size of one plane, in bytes: the least stride under which a row
/// holds every sample the kernels read.  A semi-planar chroma plane
/// interleaves U and V (two bytes per chroma column); a fully planar chroma
/// plane holds one byte per column.
pub open spec fn min_row_bytes(format: PixelFormat, plane: int, width: int) -> int {
    let d = FormatDescriptor::of(format);
    if plane < 0 || plane >= d.plane_count {
        0
    } else if plane == 0 {
        d.bytes_per_group * ceil_div(width, d.group_width as int)
    } else {
        let cols = ceil_div(width, d.subsample_x as int);
        if d.plane_count == 2 {
            2 * cols
        } else {
            cols
        }
    }
}

/// Exact byte requirement of one plane under a declared stride:
/// `stride * logical_plane_height`.
pub open spec fn required_bytes_exact(
    format: PixelFormat,
    plane: int,
    width: int,
    height: int,
    stride: int,
) -> int {
    stride * plane_height(format, plane, height)
}

/// Byte requirement reported when a plane is rejected.  A stride below the
/// tight row size can never be satisfied, so the report is computed with the
/// tight row size in its place.
pub open spec fn needed_bytes(
    format: PixelFormat,
    plane: int,
    width: int,
    height: int,
    stride: int,
) -> int {
    let row = min_row_bytes(format, plane, width);
    let s = if stride >= row {
        stride
    } else {
        row
    };
    s * plane_height(format, plane, height)
}

/// A plane is accepted exactly when its stride covers the tight row size and
/// the buffer holds `stride` bytes for every logical row.
pub open spec fn plane_ok(
    format: PixelFormat,
    plane: int,
    len: int,
    stride: int,
    width: int,
    height: int,
) -> bool {
    &&& stride >= min_row_bytes(format, plane, width)
    &&& len >= required_bytes_exact(format, plane, width, height, stride)
}

/// The tight row size of the luma plane of the planar 4:2:0 formats is the
/// width itself (one byte per pixel).
pub proof fn lemma_luma_row_tight(w: int)
    requires
        0 <= w,
    ensures
        min_row_bytes(PixelFormat::Nv12, 0, w) == w,
        min_row_bytes(PixelFormat::I420, 0, w) == w,
{
    vstd::arithmetic::div_mod::lemma_fundamental_div_mod(w, 1);
    vstd::arithmetic::div_mod::lemma_mod_bound(w, 1);
    assert(ceil_div(w, 1) == w);
    assert(min_row_bytes(PixelFormat::Nv12, 0, w) == 1 * ceil_div(w, 1));
    assert(min_row_bytes(PixelFormat::I420, 0, w) == 1 * ceil_div(w, 1));
}

/// An integer clamped into the `usize` range.
pub open spec fn sat_usize(x: int) -> usize {
    if x > usize::MAX {
        usize::MAX
    } else if x < 0 {
        0usize
    } else {
        x as usize
    }
}

/// Static lookup of the descriptor table.
pub fn descriptor(format: PixelFormat) -> (d: FormatDescriptor)
    ensures
        d == FormatDescriptor::of(format),
{
    match format {
        PixelFormat::Unknown => FormatDescriptor {
            plane_count: 0,
            subsample_x: 1,
            subsample_y: 1,
            bytes_per_group: 0,
            group_width: 1,
        },
        PixelFormat::Nv12 | PixelFormat::Nv12F => FormatDescriptor {
            plane_count: 2,
            subsample_x: 2,
            subsample_y: 2,
            bytes_per_group: 1,
            group_width: 1,
        },
        PixelFormat::I420 | PixelFormat::I420F => FormatDescriptor {
            plane_count: 3,
            subsample_x: 2,
            subsample_y: 2,
            bytes_per_group: 1,
            group_width: 1,
        },
        PixelFormat::Yuyv | PixelFormat::YuyvF | PixelFormat::Uyvy | PixelFormat::UyvyF
            => FormatDescriptor {
            plane_count: 1,
            subsample_x: 2,
            subsample_y: 1,
            bytes_per_group: 4,
            group_width: 2,
        },
        PixelFormat::Rgb24 | PixelFormat::Bgr24 => FormatDescriptor {
            plane_count: 1,
            subsample_x: 1,
            subsample_y: 1,
            bytes_per_group: 3,
            group_width: 1,
        },
        PixelFormat::Rgba32 | PixelFormat::Bgra32 => FormatDescriptor {
            plane_count: 1,
            subsample_x: 1,
            subsample_y: 1,
            bytes_per_group: 4,
            group_width: 1,
        },
    }
}

/// Round a 32-bit quantity up to a multiple quotient, in 64-bit space.
fn ceil_div_u64(x: u64, d: u64) -> (r: u64)
    requires
        1 <= d,
        x <= u32::MAX,
    ensures
        r == ceil_div(x as int, d as int),
        r <= u32::MAX,
{
    proof {
        lemma_div_nonincreasing(x as int, d as int);
    }
    let q = x / d;
    if x % d != 0 {
        proof {
            // A remainder is only possible for a divisor of at least 2, and
            // halving keeps the quotient strictly below the 32-bit limit.
            lemma_div_is_ordered_by_denominator(x as int, 2, d as int);
            lemma_div_is_ordered(x as int, u32::MAX as int, 2);
        }
        q + 1
    } else {
        q
    }
}

/// Logical row count of one plane.
fn plane_rows(format: PixelFormat, plane_index: usize, height: u32) -> (r: u64)
    ensures
        r == plane_height(format, plane_index as int, height as int),
        r <= u32::MAX,
{
    let d = descriptor(format);
    if plane_index >= d.plane_count as usize {
        0
    } else if plane_index == 0 {
        height as u64
    } else {
        ceil_div_u64(height as u64, d.subsample_y as u64)
    }
}

/// Tight row size of one plane, in bytes.
fn plane_min_row(format: PixelFormat, plane_index: usize, width: u32) -> (r: u64)
    ensures
        r == min_row_bytes(format, plane_index as int, width as int),
        r <= 5 * (u32::MAX as u64),
{
    let d = descriptor(format);
    if plane_index >= d.plane_count as usize {
        0
    } else if plane_index == 0 {
        let cols = ceil_div_u64(width as u64, d.group_width as u64);
        proof {
            assert((d.bytes_per_group as int) * (cols as int) <= 4 * (u32::MAX as int))
                by (nonlinear_arith)
                requires
                    0 <= d.bytes_per_group <= 4,
                    0 <= cols <= u32::MAX,
            ;
        }
        (d.bytes_per_group as u64) * cols
    } else {
        let cols = ceil_div_u64(width as u64, d.subsample_x as u64);
        if d.plane_count == 2 {
            2 * cols
        } else {
            cols
        }
    }
}

/// Multiply two 64-bit quantities and clamp the product into `usize`.
fn sat_mul_to_usize(a: u64, b: u64) -> (r: usize)
    ensures
        r == sat_usize((a as int) * (b as int)),
{
    match a.checked_mul(b) {
        Option::None => usize::MAX,
        Option::Some(p) => {
            if p > usize::MAX as u64 {
                usize::MAX
            } else {
                p as usize
            }
        },
    }
}

/// Minimum bytes one plane of a frame requires under a declared stride,
/// clamped into `usize`: `stride * logical_plane_height`, where the logical
/// height of a vertically subsampled chroma plane is `ceil(height / 2)`.
pub fn required_bytes(
    format: PixelFormat,
    plane_index: usize,
    width: u32,
    height: u32,
    stride: usize,
) -> (r: usize)
    ensures
        r == sat_usize(
            required_bytes_exact(format, plane_index as int, width as int, height as int,
            stride as int),
        ),
{
    let rows = plane_rows(format, plane_index, height);
    sat_mul_to_usize(stride as u64, rows)
}

/// Check one plane's buffer against the declared dimensions and stride.
///
/// Fails closed: a buffer below `required_bytes`, or a stride below the tight
/// row size, is rejected with `BufferTooSmall` before any kernel touches it.
pub fn validate(
    buffer: &[u8],
    format: PixelFormat,
    plane_index: usize,
    width: u32,
    height: u32,
    stride: usize,
) -> (r: Result<(), ConversionError>)
    ensures
        r is Ok <==> plane_ok(
            format,
            plane_index as int,
            buffer@.len() as int,
            stride as int,
            width as int,
            height as int,
        ),
        r is Err ==> r == Err::<(), ConversionError>(ConversionError::BufferTooSmall {
            needed: sat_usize(
                needed_bytes(format, plane_index as int, width as int, height as int,
                stride as int),
            ),
            got: buffer.len(),
        }),
{
    let rows = plane_rows(format, plane_index, height);
    let row_need = plane_min_row(format, plane_index, width);
    let len = buffer.len();
    if (stride as u64) < row_need {
        Err(ConversionError::BufferTooSmall {
            needed: sat_mul_to_usize(row_need, rows),
            got: len,
        })
    } else {
        match (stride as u64).checked_mul(rows) {
            Option::None => {
                // The exact requirement exceeds even `u64`, so no buffer can
                // satisfy it.
                proof {
                    assert((stride as int) * (rows as int) > usize::MAX as int);
                }
                Err(ConversionError::BufferTooSmall { needed: usize::MAX, got: len })
            },
            Option::Some(req) => {
                if (len as u64) < req {
                    Err(ConversionError::BufferTooSmall {
                        needed: sat_mul_to_usize(stride as u64, rows),
                        got: len,
                    })
                } else {
                    Ok(())
                }
            },
        }
    }
}

} // verus!
