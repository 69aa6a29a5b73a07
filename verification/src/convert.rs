//! Conversion dispatch, the registered kernel table, and the backend
//! registry.
//!
//! `convert` resolves a (source, destination) format pair against the kernel
//! table, validates every source plane, and runs the kernel.  The `Convert`
//! registry holds the probed CPU capabilities and the selected backend; every
//! registered kernel here is the scalar implementation, which serves every
//! backend, so the selected backend never changes what a conversion returns.

use vstd::prelude::*;
use vstd::string::StringExecFns;

use crate::error::CcapError;
use crate::error::ConversionError;
use crate::kernels::i420_frame;
use crate::kernels::i420_kernel;
use crate::kernels::nv12_frame;
use crate::kernels::nv12_kernel;
use crate::kernels::swap_rb;
use crate::kernels::swap_rb_frame;
use crate::kernels::yuyv_frame;
use crate::kernels::yuyv_kernel;
use crate::layout::ceil_div;
use crate::layout::needed_bytes;
use crate::layout::plane_ok;
use crate::layout::sat_usize;
use crate::layout::validate;
use crate::types::default_flags;
use crate::types::ColorConversionBackend;
use crate::types::ConversionFlags;
use crate::types::PixelFormat;

verus! {

/// The registered kernel table: the format pairs a conversion exists for.
pub open spec fn pair_supported(src: PixelFormat, dst: PixelFormat) -> bool {
    ||| (src == PixelFormat::Yuyv && (dst == PixelFormat::Rgb24 || dst == PixelFormat::Bgr24))
    ||| (src == PixelFormat::Nv12 && (dst == PixelFormat::Rgb24 || dst == PixelFormat::Bgr24))
    ||| (src == PixelFormat::I420 && (dst == PixelFormat::Rgb24 || dst == PixelFormat::Bgr24))
    ||| (src == PixelFormat::Rgb24 && dst == PixelFormat::Bgr24)
    ||| (src == PixelFormat::Bgr24 && dst == PixelFormat::Rgb24)
}

/// Whether a kernel is registered for this format pair.
pub fn is_pair_supported(src: PixelFormat, dst: PixelFormat) -> (b: bool)
    ensures
        b == pair_supported(src, dst),
{
    match (src, dst) {
        (PixelFormat::Yuyv, PixelFormat::Rgb24) => true,
        (PixelFormat::Yuyv, PixelFormat::Bgr24) => true,
        (PixelFormat::Nv12, PixelFormat::Rgb24) => true,
        (PixelFormat::Nv12, PixelFormat::Bgr24) => true,
        (PixelFormat::I420, PixelFormat::Rgb24) => true,
        (PixelFormat::I420, PixelFormat::Bgr24) => true,
        (PixelFormat::Rgb24, PixelFormat::Bgr24) => true,
        (PixelFormat::Bgr24, PixelFormat::Rgb24) => true,
        _ => false,
    }
}

/// View of an optional borrowed plane: the empty sequence where no plane was
/// passed.
pub open spec fn opt_view(p: Option<&[u8]>) -> Seq<u8> {
    match p {
        Option::Some(s) => s@,
        Option::None => Seq::empty(),
    }
}

/// View of a conversion result: the produced bytes, or the error unchanged.
pub open spec fn result_view(r: Result<Vec<u8>, ConversionError>) -> Result<
    Seq<u8>,
    ConversionError,
> {
    match r {
        Result::Ok(v) => Result::Ok(v@),
        Result::Err(e) => Result::Err(e),
    }
}

/// The frame a supported, validated conversion produces.
pub open spec fn converted_frame(
    src_format: PixelFormat,
    dst_format: PixelFormat,
    p0: Seq<u8>,
    p1: Seq<u8>,
    p2: Seq<u8>,
    s0: int,
    s1: int,
    s2: int,
    w: int,
    h: int,
    flags: ConversionFlags,
) -> Seq<u8> {
    let bgr = dst_format == PixelFormat::Bgr24;
    match src_format {
        PixelFormat::Yuyv => yuyv_frame(p0, s0, w, h, flags, bgr),
        PixelFormat::Nv12 => nv12_frame(p0, s0, p1, s1, w, h, flags, bgr),
        PixelFormat::I420 => i420_frame(p0, s0, p1, s1, p2, s2, w, h, flags, bgr),
        PixelFormat::Rgb24 | PixelFormat::Bgr24 => swap_rb_frame(p0, s0, w, h, flags),
        _ => Seq::empty(),
    }
}

/// What `convert` returns, for every input: `UnsupportedConversion` exactly
/// for pairs outside the kernel table, `BufferTooSmall` exactly for the first
/// source plane (in plane order) whose buffer fails validation, and otherwise
/// the converted frame.
pub open spec fn convert_spec(
    src_format: PixelFormat,
    dst_format: PixelFormat,
    p0: Seq<u8>,
    p1: Seq<u8>,
    p2: Seq<u8>,
    s0: int,
    s1: int,
    s2: int,
    w: int,
    h: int,
    flags: ConversionFlags,
) -> Result<Seq<u8>, ConversionError> {
    if !pair_supported(src_format, dst_format) {
        Result::Err(
            ConversionError::UnsupportedConversion { src: src_format, dst: dst_format },
        )
    } else if !plane_ok(src_format, 0, p0.len() as int, s0, w, h) {
        Result::Err(
            ConversionError::BufferTooSmall {
                needed: sat_usize(needed_bytes(src_format, 0, w, h, s0)),
                got: sat_usize(p0.len() as int),
            },
        )
    } else if !plane_ok(src_format, 1, p1.len() as int, s1, w, h) {
        Result::Err(
            ConversionError::BufferTooSmall {
                needed: sat_usize(needed_bytes(src_format, 1, w, h, s1)),
                got: sat_usize(p1.len() as int),
            },
        )
    } else if !plane_ok(src_format, 2, p2.len() as int, s2, w, h) {
        Result::Err(
            ConversionError::BufferTooSmall {
                needed: sat_usize(needed_bytes(src_format, 2, w, h, s2)),
                got: sat_usize(p2.len() as int),
            },
        )
    } else {
        Result::Ok(converted_frame(src_format, dst_format, p0, p1, p2, s0, s1, s2, w, h, flags))
    }
}

/// Rounding up by one keeps a whole quotient whole.
proof fn lemma_ceil_div_one(x: int)
    requires
        0 <= x,
    ensures
        ceil_div(x, 1) == x,
{
    vstd::arithmetic::div_mod::lemma_fundamental_div_mod(x, 1);
    vstd::arithmetic::div_mod::lemma_mod_bound(x, 1);
}

/// Convert one frame between two registered pixel formats.
///
/// The source is handed over as up to three planes with their strides; a
/// format with fewer planes ignores the rest (a missing plane counts as an
/// empty buffer).  The destination is freshly allocated, tightly packed at
/// three bytes per pixel.  No destination byte exists until every source
/// plane has passed validation.
pub fn convert(
    src_format: PixelFormat,
    dst_format: PixelFormat,
    plane0: &[u8],
    plane1: Option<&[u8]>,
    plane2: Option<&[u8]>,
    stride0: usize,
    stride1: usize,
    stride2: usize,
    width: u32,
    height: u32,
    flags: ConversionFlags,
) -> (r: Result<Vec<u8>, ConversionError>)
    requires
        3 * (width as int) * (height as int) <= usize::MAX,
    ensures
        result_view(r) == convert_spec(
            src_format,
            dst_format,
            plane0@,
            opt_view(plane1),
            opt_view(plane2),
            stride0 as int,
            stride1 as int,
            stride2 as int,
            width as int,
            height as int,
            flags,
        ),
{
    let ghost wi = width as int;
    let ghost hi = height as int;
    if !is_pair_supported(src_format, dst_format) {
        return Err(ConversionError::UnsupportedConversion { src: src_format, dst: dst_format });
    }
    let empty0: Vec<u8> = Vec::new();
    let empty1: Vec<u8> = Vec::new();
    let p1: &[u8] = match plane1 {
        Option::Some(s) => s,
        Option::None => empty0.as_slice(),
    };
    let p2: &[u8] = match plane2 {
        Option::Some(s) => s,
        Option::None => empty1.as_slice(),
    };
    proof {
        assert(p1@ == opt_view(plane1));
        assert(p2@ == opt_view(plane2));
    }
    if let Err(e) = validate(plane0, src_format, 0, width, height, stride0) {
        return Err(e);
    }
    if let Err(e) = validate(p1, src_format, 1, width, height, stride1) {
        return Err(e);
    }
    if let Err(e) = validate(p2, src_format, 2, width, height, stride2) {
        return Err(e);
    }
    proof {
        crate::layout::lemma_luma_row_tight(wi);
        lemma_ceil_div_one(wi);
    }
    match (src_format, dst_format) {
        (PixelFormat::Yuyv, PixelFormat::Rgb24) => {
            Ok(yuyv_kernel(plane0, stride0, width, height, flags, false))
        },
        (PixelFormat::Yuyv, PixelFormat::Bgr24) => {
            Ok(yuyv_kernel(plane0, stride0, width, height, flags, true))
        },
        (PixelFormat::Nv12, PixelFormat::Rgb24) => {
            Ok(nv12_kernel(plane0, stride0, p1, stride1, width, height, flags, false))
        },
        (PixelFormat::Nv12, PixelFormat::Bgr24) => {
            Ok(nv12_kernel(plane0, stride0, p1, stride1, width, height, flags, true))
        },
        (PixelFormat::I420, PixelFormat::Rgb24) => {
            Ok(i420_kernel(plane0, stride0, p1, stride1, p2, stride2, width, height, flags, false))
        },
        (PixelFormat::I420, PixelFormat::Bgr24) => {
            Ok(i420_kernel(plane0, stride0, p1, stride1, p2, stride2, width, height, flags, true))
        },
        (PixelFormat::Rgb24, PixelFormat::Bgr24) | (PixelFormat::Bgr24, PixelFormat::Rgb24) => {
            Ok(swap_rb(plane0, stride0, width, height, flags))
        },
        _ => {
            proof {
                assert(false);
            }
            Err(ConversionError::UnsupportedConversion { src: src_format, dst: dst_format })
        },
    }
}

/// Color conversion utilities: the backend registry and the per-pair
/// conversion entry points.
///
/// The registry is a value constructed from the probed capabilities; the
/// selected backend gates nothing in the kernels (every registered kernel is
/// the scalar one, numerically identical across backends), so a conversion's
/// result is a function of its buffer arguments alone.
pub struct Convert {
    has_avx2: bool,
    has_neon: bool,
    has_apple_accelerate: bool,
    current: ColorConversionBackend,
}

impl Convert {
    /// Whether a backend is available under the probed capabilities.  The
    /// scalar CPU backend is always available.
    pub closed spec fn spec_available(&self, backend: ColorConversionBackend) -> bool {
        match backend {
            ColorConversionBackend::Cpu => true,
            ColorConversionBackend::Avx2 => self.has_avx2,
            ColorConversionBackend::Neon => self.has_neon,
            ColorConversionBackend::Accelerate => self.has_apple_accelerate,
        }
    }

    /// The currently selected backend.
    pub closed spec fn spec_backend(&self) -> ColorConversionBackend {
        self.current
    }

    /// Build a registry from the probed capabilities.  The initial backend is
    /// the most capable one available, preferring the vendor-accelerated
    /// backend, then wide SIMD, then narrow SIMD, then scalar.
    pub fn new(has_avx2: bool, has_neon: bool, has_apple_accelerate: bool) -> (c: Convert)
        ensures
            c.spec_available(ColorConversionBackend::Cpu),
            c.spec_available(ColorConversionBackend::Avx2) == has_avx2,
            c.spec_available(ColorConversionBackend::Neon) == has_neon,
            c.spec_available(ColorConversionBackend::Accelerate) == has_apple_accelerate,
            c.spec_backend() == (if has_apple_accelerate {
                ColorConversionBackend::Accelerate
            } else if has_avx2 {
                ColorConversionBackend::Avx2
            } else if has_neon {
                ColorConversionBackend::Neon
            } else {
                ColorConversionBackend::Cpu
            }),
    {
        let current = if has_apple_accelerate {
            ColorConversionBackend::Accelerate
        } else if has_avx2 {
            ColorConversionBackend::Avx2
        } else if has_neon {
            ColorConversionBackend::Neon
        } else {
            ColorConversionBackend::Cpu
        };
        Convert { has_avx2, has_neon, has_apple_accelerate, current }
    }

    /// Get current color conversion backend
    pub fn backend(&self) -> (b: ColorConversionBackend)
        ensures
            b == self.spec_backend(),
    {
        self.current
    }

    /// Set color conversion backend
    ///
    /// Succeeds exactly when the requested backend is available; on failure
    /// the registry is unchanged.
    pub fn set_backend(&mut self, backend: ColorConversionBackend) -> (r: Result<(), CcapError>)
        ensures
            r is Ok <==> old(self).spec_available(backend),
            r is Ok ==> final(self).spec_backend() == backend,
            r is Err ==> *final(self) == *old(self) && r matches Err(CcapError::BackendSetFailed),
            forall|b: ColorConversionBackend|
                #[trigger] final(self).spec_available(b) == old(self).spec_available(b),
    {
        let available = match backend {
            ColorConversionBackend::Cpu => true,
            ColorConversionBackend::Avx2 => self.has_avx2,
            ColorConversionBackend::Neon => self.has_neon,
            ColorConversionBackend::Accelerate => self.has_apple_accelerate,
        };
        if available {
            self.current = backend;
            Ok(())
        } else {
            Err(CcapError::BackendSetFailed)
        }
    }

    /// Check if AVX2 is available
    pub fn has_avx2(&self) -> (r: bool)
        ensures
            r == self.spec_available(ColorConversionBackend::Avx2),
    {
        self.has_avx2
    }

    /// Check if Apple Accelerate is available
    pub fn has_apple_accelerate(&self) -> (r: bool)
        ensures
            r == self.spec_available(ColorConversionBackend::Accelerate),
    {
        self.has_apple_accelerate
    }

    /// Check if NEON is available
    pub fn has_neon(&self) -> (r: bool)
        ensures
            r == self.spec_available(ColorConversionBackend::Neon),
    {
        self.has_neon
    }

    /// Convert YUYV to RGB24
    pub fn yuyv_to_rgb24(src_data: &[u8], src_stride: usize, width: u32, height: u32) -> (r:
        Result<Vec<u8>, CcapError>)
        requires
            3 * (width as int) * (height as int) <= usize::MAX,
        ensures
            r is Ok <==> plane_ok(
                PixelFormat::Yuyv,
                0,
                src_data@.len() as int,
                src_stride as int,
                width as int,
                height as int,
            ),
            r is Ok ==> r->Ok_0@ == yuyv_frame(
                src_data@,
                src_stride as int,
                width as int,
                height as int,
                default_flags(),
                false,
            ),
            r is Err ==> (r matches Err(CcapError::InvalidParameter(m)) && m@
                == "source buffer too small"@),
    {
        match validate(src_data, PixelFormat::Yuyv, 0, width, height, src_stride) {
            Err(_) => Err(CcapError::InvalidParameter(String::from_str("source buffer too small"))),
            Ok(()) => Ok(
                yuyv_kernel(src_data, src_stride, width, height, ConversionFlags::default(), false),
            ),
        }
    }

    /// Convert YUYV to BGR24
    pub fn yuyv_to_bgr24(src_data: &[u8], src_stride: usize, width: u32, height: u32) -> (r:
        Result<Vec<u8>, CcapError>)
        requires
            3 * (width as int) * (height as int) <= usize::MAX,
        ensures
            r is Ok <==> plane_ok(
                PixelFormat::Yuyv,
                0,
                src_data@.len() as int,
                src_stride as int,
                width as int,
                height as int,
            ),
            r is Ok ==> r->Ok_0@ == yuyv_frame(
                src_data@,
                src_stride as int,
                width as int,
                height as int,
                default_flags(),
                true,
            ),
            r is Err ==> (r matches Err(CcapError::InvalidParameter(m)) && m@
                == "source buffer too small"@),
    {
        match validate(src_data, PixelFormat::Yuyv, 0, width, height, src_stride) {
            Err(_) => Err(CcapError::InvalidParameter(String::from_str("source buffer too small"))),
            Ok(()) => Ok(
                yuyv_kernel(src_data, src_stride, width, height, ConversionFlags::default(), true),
            ),
        }
    }

    /// Convert RGB to BGR
    pub fn rgb_to_bgr(src_data: &[u8], src_stride: usize, width: u32, height: u32) -> (r: Result<
        Vec<u8>,
        CcapError,
    >)
        requires
            3 * (width as int) * (height as int) <= usize::MAX,
        ensures
            r is Ok <==> plane_ok(
                PixelFormat::Rgb24,
                0,
                src_data@.len() as int,
                src_stride as int,
                width as int,
                height as int,
            ),
            r is Ok ==> r->Ok_0@ == swap_rb_frame(
                src_data@,
                src_stride as int,
                width as int,
                height as int,
                default_flags(),
            ),
            r is Err ==> (r matches Err(CcapError::InvalidParameter(m)) && m@
                == "source buffer too small"@),
    {
        match validate(src_data, PixelFormat::Rgb24, 0, width, height, src_stride) {
            Err(_) => Err(CcapError::InvalidParameter(String::from_str("source buffer too small"))),
            Ok(()) => {
                proof {
                    lemma_ceil_div_one(width as int);
                }
                Ok(swap_rb(src_data, src_stride, width, height, ConversionFlags::default()))
            },
        }
    }

    /// Convert BGR to RGB
    pub fn bgr_to_rgb(src_data: &[u8], src_stride: usize, width: u32, height: u32) -> (r: Result<
        Vec<u8>,
        CcapError,
    >)
        requires
            3 * (width as int) * (height as int) <= usize::MAX,
        ensures
            r is Ok <==> plane_ok(
                PixelFormat::Bgr24,
                0,
                src_data@.len() as int,
                src_stride as int,
                width as int,
                height as int,
            ),
            r is Ok ==> r->Ok_0@ == swap_rb_frame(
                src_data@,
                src_stride as int,
                width as int,
                height as int,
                default_flags(),
            ),
            r is Err ==> (r matches Err(CcapError::InvalidParameter(m)) && m@
                == "source buffer too small"@),
    {
        match validate(src_data, PixelFormat::Bgr24, 0, width, height, src_stride) {
            Err(_) => Err(CcapError::InvalidParameter(String::from_str("source buffer too small"))),
            Ok(()) => {
                proof {
                    lemma_ceil_div_one(width as int);
                }
                Ok(swap_rb(src_data, src_stride, width, height, ConversionFlags::default()))
            },
        }
    }

    /// Convert NV12 to RGB24
    pub fn nv12_to_rgb24(
        y_data: &[u8],
        y_stride: usize,
        uv_data: &[u8],
        uv_stride: usize,
        width: u32,
        height: u32,
    ) -> (r: Result<Vec<u8>, CcapError>)
        requires
            3 * (width as int) * (height as int) <= usize::MAX,
        ensures
            r is Ok <==> (plane_ok(
                PixelFormat::Nv12,
                0,
                y_data@.len() as int,
                y_stride as int,
                width as int,
                height as int,
            ) && plane_ok(
                PixelFormat::Nv12,
                1,
                uv_data@.len() as int,
                uv_stride as int,
                width as int,
                height as int,
            )),
            r is Ok ==> r->Ok_0@ == nv12_frame(
                y_data@,
                y_stride as int,
                uv_data@,
                uv_stride as int,
                width as int,
                height as int,
                default_flags(),
                false,
            ),
            r is Err ==> (r matches Err(CcapError::InvalidParameter(m)) && m@
                == "source buffer too small"@),
    {
        if let Err(_) = validate(y_data, PixelFormat::Nv12, 0, width, height, y_stride) {
            return Err(CcapError::InvalidParameter(String::from_str("source buffer too small")));
        }
        if let Err(_) = validate(uv_data, PixelFormat::Nv12, 1, width, height, uv_stride) {
            return Err(CcapError::InvalidParameter(String::from_str("source buffer too small")));
        }
        proof {
            crate::layout::lemma_luma_row_tight(width as int);
        }
        Ok(
            nv12_kernel(
                y_data,
                y_stride,
                uv_data,
                uv_stride,
                width,
                height,
                ConversionFlags::default(),
                false,
            ),
        )
    }

    /// Convert NV12 to BGR24
    pub fn nv12_to_bgr24(
        y_data: &[u8],
        y_stride: usize,
        uv_data: &[u8],
        uv_stride: usize,
        width: u32,
        height: u32,
    ) -> (r: Result<Vec<u8>, CcapError>)
        requires
            3 * (width as int) * (height as int) <= usize::MAX,
        ensures
            r is Ok <==> (plane_ok(
                PixelFormat::Nv12,
                0,
                y_data@.len() as int,
                y_stride as int,
                width as int,
                height as int,
            ) && plane_ok(
                PixelFormat::Nv12,
                1,
                uv_data@.len() as int,
                uv_stride as int,
                width as int,
                height as int,
            )),
            r is Ok ==> r->Ok_0@ == nv12_frame(
                y_data@,
                y_stride as int,
                uv_data@,
                uv_stride as int,
                width as int,
                height as int,
                default_flags(),
                true,
            ),
            r is Err ==> (r matches Err(CcapError::InvalidParameter(m)) && m@
                == "source buffer too small"@),
    {
        if let Err(_) = validate(y_data, PixelFormat::Nv12, 0, width, height, y_stride) {
            return Err(CcapError::InvalidParameter(String::from_str("source buffer too small")));
        }
        if let Err(_) = validate(uv_data, PixelFormat::Nv12, 1, width, height, uv_stride) {
            return Err(CcapError::InvalidParameter(String::from_str("source buffer too small")));
        }
        proof {
            crate::layout::lemma_luma_row_tight(width as int);
        }
        Ok(
            nv12_kernel(
                y_data,
                y_stride,
                uv_data,
                uv_stride,
                width,
                height,
                ConversionFlags::default(),
                true,
            ),
        )
    }

    /// Convert I420 to RGB24
    pub fn i420_to_rgb24(
        y_data: &[u8],
        y_stride: usize,
        u_data: &[u8],
        u_stride: usize,
        v_data: &[u8],
        v_stride: usize,
        width: u32,
        height: u32,
    ) -> (r: Result<Vec<u8>, CcapError>)
        requires
            3 * (width as int) * (height as int) <= usize::MAX,
        ensures
            r is Ok <==> (plane_ok(
                PixelFormat::I420,
                0,
                y_data@.len() as int,
                y_stride as int,
                width as int,
                height as int,
            ) && plane_ok(
                PixelFormat::I420,
                1,
                u_data@.len() as int,
                u_stride as int,
                width as int,
                height as int,
            ) && plane_ok(
                PixelFormat::I420,
                2,
                v_data@.len() as int,
                v_stride as int,
                width as int,
                height as int,
            )),
            r is Ok ==> r->Ok_0@ == i420_frame(
                y_data@,
                y_stride as int,
                u_data@,
                u_stride as int,
                v_data@,
                v_stride as int,
                width as int,
                height as int,
                default_flags(),
                false,
            ),
            r is Err ==> (r matches Err(CcapError::InvalidParameter(m)) && m@
                == "source buffer too small"@),
    {
        if let Err(_) = validate(y_data, PixelFormat::I420, 0, width, height, y_stride) {
            return Err(CcapError::InvalidParameter(String::from_str("source buffer too small")));
        }
        if let Err(_) = validate(u_data, PixelFormat::I420, 1, width, height, u_stride) {
            return Err(CcapError::InvalidParameter(String::from_str("source buffer too small")));
        }
        if let Err(_) = validate(v_data, PixelFormat::I420, 2, width, height, v_stride) {
            return Err(CcapError::InvalidParameter(String::from_str("source buffer too small")));
        }
        proof {
            crate::layout::lemma_luma_row_tight(width as int);
        }
        Ok(
            i420_kernel(
                y_data,
                y_stride,
                u_data,
                u_stride,
                v_data,
                v_stride,
                width,
                height,
                ConversionFlags::default(),
                false,
            ),
        )
    }

    /// Convert I420 to BGR24
    pub fn i420_to_bgr24(
        y_data: &[u8],
        y_stride: usize,
        u_data: &[u8],
        u_stride: usize,
        v_data: &[u8],
        v_stride: usize,
        width: u32,
        height: u32,
    ) -> (r: Result<Vec<u8>, CcapError>)
        requires
            3 * (width as int) * (height as int) <= usize::MAX,
        ensures
            r is Ok <==> (plane_ok(
                PixelFormat::I420,
                0,
                y_data@.len() as int,
                y_stride as int,
                width as int,
                height as int,
            ) && plane_ok(
                PixelFormat::I420,
                1,
                u_data@.len() as int,
                u_stride as int,
                width as int,
                height as int,
            ) && plane_ok(
                PixelFormat::I420,
                2,
                v_data@.len() as int,
                v_stride as int,
                width as int,
                height as int,
            )),
            r is Ok ==> r->Ok_0@ == i420_frame(
                y_data@,
                y_stride as int,
                u_data@,
                u_stride as int,
                v_data@,
                v_stride as int,
                width as int,
                height as int,
                default_flags(),
                true,
            ),
            r is Err ==> (r matches Err(CcapError::InvalidParameter(m)) && m@
                == "source buffer too small"@),
    {
        if let Err(_) = validate(y_data, PixelFormat::I420, 0, width, height, y_stride) {
            return Err(CcapError::InvalidParameter(String::from_str("source buffer too small")));
        }
        if let Err(_) = validate(u_data, PixelFormat::I420, 1, width, height, u_stride) {
            return Err(CcapError::InvalidParameter(String::from_str("source buffer too small")));
        }
        if let Err(_) = validate(v_data, PixelFormat::I420, 2, width, height, v_stride) {
            return Err(CcapError::InvalidParameter(String::from_str("source buffer too small")));
        }
        proof {
            crate::layout::lemma_luma_row_tight(width as int);
        }
        Ok(
            i420_kernel(
                y_data,
                y_stride,
                u_data,
                u_stride,
                v_data,
                v_stride,
                width,
                height,
                ConversionFlags::default(),
                true,
            ),
        )
    }
}

} // verus!
