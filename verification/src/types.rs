//! Pixel formats, conversion backends and the other small enumerations of the
//! capture layer, together with their wire encodings (the integer codes used
//! by the surrounding C ABI).

use vstd::prelude::*;

verus! {

/// Wire code for an unrecognized pixel format.
pub const CCAP_PIXEL_FORMAT_UNKNOWN: u32 = 0;
/// Wire code for the NV12 pixel format.
pub const CCAP_PIXEL_FORMAT_NV12: u32 = 1;
/// Wire code for the row-flipped NV12 pixel format.
pub const CCAP_PIXEL_FORMAT_NV12F: u32 = 2;
/// Wire code for the I420 pixel format.
pub const CCAP_PIXEL_FORMAT_I420: u32 = 3;
/// Wire code for the row-flipped I420 pixel format.
pub const CCAP_PIXEL_FORMAT_I420F: u32 = 4;
/// Wire code for the YUYV pixel format.
pub const CCAP_PIXEL_FORMAT_YUYV: u32 = 5;
/// Wire code for the row-flipped YUYV pixel format.
pub const CCAP_PIXEL_FORMAT_YUYV_F: u32 = 6;
/// Wire code for the UYVY pixel format.
pub const CCAP_PIXEL_FORMAT_UYVY: u32 = 7;
/// Wire code for the row-flipped UYVY pixel format.
pub const CCAP_PIXEL_FORMAT_UYVY_F: u32 = 8;
/// Wire code for the RGB24 pixel format.
pub const CCAP_PIXEL_FORMAT_RGB24: u32 = 9;
/// Wire code for the BGR24 pixel format.
pub const CCAP_PIXEL_FORMAT_BGR24: u32 = 10;
/// Wire code for the RGBA32 pixel format.
pub const CCAP_PIXEL_FORMAT_RGBA32: u32 = 11;
/// Wire code for the BGRA32 pixel format.
pub const CCAP_PIXEL_FORMAT_BGRA32: u32 = 12;

/// Pixel format enumeration
#[derive(Debug, Clone, Copy, PartialEq, Eq, Structural)]
pub enum PixelFormat {
    /// Unknown pixel format
    Unknown,
    /// NV12 pixel format
    Nv12,
    /// NV12F pixel format
    Nv12F,
    /// I420 pixel format
    I420,
    /// I420F pixel format
    I420F,
    /// YUYV pixel format
    Yuyv,
    /// YUYV flipped pixel format
    YuyvF,
    /// UYVY pixel format
    Uyvy,
    /// UYVY flipped pixel format
    UyvyF,
    /// RGB24 pixel format
    Rgb24,
    /// BGR24 pixel format
    Bgr24,
    /// RGBA32 pixel format
    Rgba32,
    /// BGRA32 pixel format
    Bgra32,
}

impl PixelFormat {
    /// Wire code of this pixel format.
    pub open spec fn code(self) -> u32 {
        match self {
            PixelFormat::Unknown => CCAP_PIXEL_FORMAT_UNKNOWN,
            PixelFormat::Nv12 => CCAP_PIXEL_FORMAT_NV12,
            PixelFormat::Nv12F => CCAP_PIXEL_FORMAT_NV12F,
            PixelFormat::I420 => CCAP_PIXEL_FORMAT_I420,
            PixelFormat::I420F => CCAP_PIXEL_FORMAT_I420F,
            PixelFormat::Yuyv => CCAP_PIXEL_FORMAT_YUYV,
            PixelFormat::YuyvF => CCAP_PIXEL_FORMAT_YUYV_F,
            PixelFormat::Uyvy => CCAP_PIXEL_FORMAT_UYVY,
            PixelFormat::UyvyF => CCAP_PIXEL_FORMAT_UYVY_F,
            PixelFormat::Rgb24 => CCAP_PIXEL_FORMAT_RGB24,
            PixelFormat::Bgr24 => CCAP_PIXEL_FORMAT_BGR24,
            PixelFormat::Rgba32 => CCAP_PIXEL_FORMAT_RGBA32,
            PixelFormat::Bgra32 => CCAP_PIXEL_FORMAT_BGRA32,
        }
    }

    /// Pixel format a wire code decodes to; unrecognized codes decode to
    /// `Unknown`.
    pub open spec fn decode(code: u32) -> PixelFormat {
        if code == CCAP_PIXEL_FORMAT_NV12 {
            PixelFormat::Nv12
        } else if code == CCAP_PIXEL_FORMAT_NV12F {
            PixelFormat::Nv12F
        } else if code == CCAP_PIXEL_FORMAT_I420 {
            PixelFormat::I420
        } else if code == CCAP_PIXEL_FORMAT_I420F {
            PixelFormat::I420F
        } else if code == CCAP_PIXEL_FORMAT_YUYV {
            PixelFormat::Yuyv
        } else if code == CCAP_PIXEL_FORMAT_YUYV_F {
            PixelFormat::YuyvF
        } else if code == CCAP_PIXEL_FORMAT_UYVY {
            PixelFormat::Uyvy
        } else if code == CCAP_PIXEL_FORMAT_UYVY_F {
            PixelFormat::UyvyF
        } else if code == CCAP_PIXEL_FORMAT_RGB24 {
            PixelFormat::Rgb24
        } else if code == CCAP_PIXEL_FORMAT_BGR24 {
            PixelFormat::Bgr24
        } else if code == CCAP_PIXEL_FORMAT_RGBA32 {
            PixelFormat::Rgba32
        } else if code == CCAP_PIXEL_FORMAT_BGRA32 {
            PixelFormat::Bgra32
        } else {
            PixelFormat::Unknown
        }
    }

    /// Convert pixel format to its wire code
    pub fn to_c_enum(self) -> (r: u32)
        ensures
            r == self.code(),
    {
        match self {
            PixelFormat::Unknown => CCAP_PIXEL_FORMAT_UNKNOWN,
            PixelFormat::Nv12 => CCAP_PIXEL_FORMAT_NV12,
            PixelFormat::Nv12F => CCAP_PIXEL_FORMAT_NV12F,
            PixelFormat::I420 => CCAP_PIXEL_FORMAT_I420,
            PixelFormat::I420F => CCAP_PIXEL_FORMAT_I420F,
            PixelFormat::Yuyv => CCAP_PIXEL_FORMAT_YUYV,
            PixelFormat::YuyvF => CCAP_PIXEL_FORMAT_YUYV_F,
            PixelFormat::Uyvy => CCAP_PIXEL_FORMAT_UYVY,
            PixelFormat::UyvyF => CCAP_PIXEL_FORMAT_UYVY_F,
            PixelFormat::Rgb24 => CCAP_PIXEL_FORMAT_RGB24,
            PixelFormat::Bgr24 => CCAP_PIXEL_FORMAT_BGR24,
            PixelFormat::Rgba32 => CCAP_PIXEL_FORMAT_RGBA32,
            PixelFormat::Bgra32 => CCAP_PIXEL_FORMAT_BGRA32,
        }
    }

    /// Create pixel format from its wire code
    pub fn from_c_enum(format: u32) -> (r: PixelFormat)
        ensures
            r == PixelFormat::decode(format),
    {
        if format == CCAP_PIXEL_FORMAT_NV12 {
            PixelFormat::Nv12
        } else if format == CCAP_PIXEL_FORMAT_NV12F {
            PixelFormat::Nv12F
        } else if format == CCAP_PIXEL_FORMAT_I420 {
            PixelFormat::I420
        } else if format == CCAP_PIXEL_FORMAT_I420F {
            PixelFormat::I420F
        } else if format == CCAP_PIXEL_FORMAT_YUYV {
            PixelFormat::Yuyv
        } else if format == CCAP_PIXEL_FORMAT_YUYV_F {
            PixelFormat::YuyvF
        } else if format == CCAP_PIXEL_FORMAT_UYVY {
            PixelFormat::Uyvy
        } else if format == CCAP_PIXEL_FORMAT_UYVY_F {
            PixelFormat::UyvyF
        } else if format == CCAP_PIXEL_FORMAT_RGB24 {
            PixelFormat::Rgb24
        } else if format == CCAP_PIXEL_FORMAT_BGR24 {
            PixelFormat::Bgr24
        } else if format == CCAP_PIXEL_FORMAT_RGBA32 {
            PixelFormat::Rgba32
        } else if format == CCAP_PIXEL_FORMAT_BGRA32 {
            PixelFormat::Bgra32
        } else {
            PixelFormat::Unknown
        }
    }

    /// Display name of this pixel format.
    pub open spec fn name(self) -> Seq<char> {
        match self {
            PixelFormat::Unknown => "Unknown"@,
            PixelFormat::Nv12 => "NV12"@,
            PixelFormat::Nv12F => "NV12F"@,
            PixelFormat::I420 => "I420"@,
            PixelFormat::I420F => "I420F"@,
            PixelFormat::Yuyv => "YUYV"@,
            PixelFormat::YuyvF => "YUYV_F"@,
            PixelFormat::Uyvy => "UYVY"@,
            PixelFormat::UyvyF => "UYVY_F"@,
            PixelFormat::Rgb24 => "RGB24"@,
            PixelFormat::Bgr24 => "BGR24"@,
            PixelFormat::Rgba32 => "RGBA32"@,
            PixelFormat::Bgra32 => "BGRA32"@,
        }
    }

    /// Get string representation of pixel format
    pub fn as_str(self) -> (r: &'static str)
        ensures
            r@ == self.name(),
    {
        match self {
            PixelFormat::Unknown => "Unknown",
            PixelFormat::Nv12 => "NV12",
            PixelFormat::Nv12F => "NV12F",
            PixelFormat::I420 => "I420",
            PixelFormat::I420F => "I420F",
            PixelFormat::Yuyv => "YUYV",
            PixelFormat::YuyvF => "YUYV_F",
            PixelFormat::Uyvy => "UYVY",
            PixelFormat::UyvyF => "UYVY_F",
            PixelFormat::Rgb24 => "RGB24",
            PixelFormat::Bgr24 => "BGR24",
            PixelFormat::Rgba32 => "RGBA32",
            PixelFormat::Bgra32 => "BGRA32",
        }
    }
}

/// Frame orientation enumeration
#[derive(Debug, Clone, Copy, PartialEq, Eq, Structural)]
pub enum FrameOrientation {
    /// Top to bottom orientation
    TopToBottom,
    /// Bottom to top orientation
    BottomToTop,
}

/// Wire code for the top-to-bottom frame orientation.
pub const CCAP_FRAME_ORIENTATION_TOP_TO_BOTTOM: u32 = 0;
/// Wire code for the bottom-to-top frame orientation.
pub const CCAP_FRAME_ORIENTATION_BOTTOM_TO_TOP: u32 = 1;

impl FrameOrientation {
    /// Orientation a wire code decodes to; unrecognized codes decode to
    /// `TopToBottom`.
    pub open spec fn decode(code: u32) -> FrameOrientation {
        if code == CCAP_FRAME_ORIENTATION_BOTTOM_TO_TOP {
            FrameOrientation::BottomToTop
        } else {
            FrameOrientation::TopToBottom
        }
    }

    /// Create frame orientation from its wire code
    pub fn from_c_enum(orientation: u32) -> (r: FrameOrientation)
        ensures
            r == FrameOrientation::decode(orientation),
    {
        if orientation == CCAP_FRAME_ORIENTATION_BOTTOM_TO_TOP {
            FrameOrientation::BottomToTop
        } else {
            FrameOrientation::TopToBottom
        }
    }
}

/// Wire code for the width property.
pub const CCAP_PROPERTY_WIDTH: u32 = 0;
/// Wire code for the height property.
pub const CCAP_PROPERTY_HEIGHT: u32 = 1;
/// Wire code for the frame rate property.
pub const CCAP_PROPERTY_FRAME_RATE: u32 = 2;
/// Wire code for the internal pixel format property.
pub const CCAP_PROPERTY_PIXEL_FORMAT_INTERNAL: u32 = 3;
/// Wire code for the output pixel format property.
pub const CCAP_PROPERTY_PIXEL_FORMAT_OUTPUT: u32 = 4;
/// Wire code for the frame orientation property.
pub const CCAP_PROPERTY_FRAME_ORIENTATION: u32 = 5;

/// Camera property enumeration
#[derive(Debug, Clone, Copy, PartialEq, Eq, Structural)]
pub enum PropertyName {
    /// Width property
    Width,
    /// Height property
    Height,
    /// Frame rate property
    FrameRate,
    /// Internal pixel format property
    PixelFormatInternal,
    /// Output pixel format property
    PixelFormatOutput,
    /// Frame orientation property
    FrameOrientation,
}

impl PropertyName {
    /// Wire code of this property.
    pub open spec fn code(self) -> u32 {
        match self {
            PropertyName::Width => CCAP_PROPERTY_WIDTH,
            PropertyName::Height => CCAP_PROPERTY_HEIGHT,
            PropertyName::FrameRate => CCAP_PROPERTY_FRAME_RATE,
            PropertyName::PixelFormatInternal => CCAP_PROPERTY_PIXEL_FORMAT_INTERNAL,
            PropertyName::PixelFormatOutput => CCAP_PROPERTY_PIXEL_FORMAT_OUTPUT,
            PropertyName::FrameOrientation => CCAP_PROPERTY_FRAME_ORIENTATION,
        }
    }

    /// Convert property name to its wire code
    pub fn to_c_enum(self) -> (r: u32)
        ensures
            r == self.code(),
    {
        match self {
            PropertyName::Width => CCAP_PROPERTY_WIDTH,
            PropertyName::Height => CCAP_PROPERTY_HEIGHT,
            PropertyName::FrameRate => CCAP_PROPERTY_FRAME_RATE,
            PropertyName::PixelFormatInternal => CCAP_PROPERTY_PIXEL_FORMAT_INTERNAL,
            PropertyName::PixelFormatOutput => CCAP_PROPERTY_PIXEL_FORMAT_OUTPUT,
            PropertyName::FrameOrientation => CCAP_PROPERTY_FRAME_ORIENTATION,
        }
    }
}

/// Wire code for the scalar CPU conversion backend.
pub const CCAP_CONVERT_BACKEND_CPU: u32 = 0;
/// Wire code for the AVX2 conversion backend.
pub const CCAP_CONVERT_BACKEND_AVX2: u32 = 1;
/// Wire code for the NEON conversion backend.
pub const CCAP_CONVERT_BACKEND_NEON: u32 = 2;
/// Wire code for the Apple Accelerate conversion backend.
pub const CCAP_CONVERT_BACKEND_APPLE_ACCELERATE: u32 = 3;

/// Color conversion backend enumeration
#[derive(Debug, Clone, Copy, PartialEq, Eq, Structural)]
pub enum ColorConversionBackend {
    /// CPU backend
    Cpu,
    /// AVX2 backend
    Avx2,
    /// NEON backend
    Neon,
    /// Apple Accelerate backend
    Accelerate,
}

impl ColorConversionBackend {
    /// Wire code of this backend.
    pub open spec fn code(self) -> u32 {
        match self {
            ColorConversionBackend::Cpu => CCAP_CONVERT_BACKEND_CPU,
            ColorConversionBackend::Avx2 => CCAP_CONVERT_BACKEND_AVX2,
            ColorConversionBackend::Neon => CCAP_CONVERT_BACKEND_NEON,
            ColorConversionBackend::Accelerate => CCAP_CONVERT_BACKEND_APPLE_ACCELERATE,
        }
    }

    /// Backend a wire code decodes to; unrecognized codes decode to `Cpu`.
    pub open spec fn decode(code: u32) -> ColorConversionBackend {
        if code == CCAP_CONVERT_BACKEND_AVX2 {
            ColorConversionBackend::Avx2
        } else if code == CCAP_CONVERT_BACKEND_NEON {
            ColorConversionBackend::Neon
        } else if code == CCAP_CONVERT_BACKEND_APPLE_ACCELERATE {
            ColorConversionBackend::Accelerate
        } else {
            ColorConversionBackend::Cpu
        }
    }

    /// Convert backend to its wire code
    pub fn to_c_enum(self) -> (r: u32)
        ensures
            r == self.code(),
    {
        match self {
            ColorConversionBackend::Cpu => CCAP_CONVERT_BACKEND_CPU,
            ColorConversionBackend::Avx2 => CCAP_CONVERT_BACKEND_AVX2,
            ColorConversionBackend::Neon => CCAP_CONVERT_BACKEND_NEON,
            ColorConversionBackend::Accelerate => CCAP_CONVERT_BACKEND_APPLE_ACCELERATE,
        }
    }

    /// Create backend from its wire code
    pub fn from_c_enum(backend: u32) -> (r: ColorConversionBackend)
        ensures
            r == ColorConversionBackend::decode(backend),
    {
        if backend == CCAP_CONVERT_BACKEND_AVX2 {
            ColorConversionBackend::Avx2
        } else if backend == CCAP_CONVERT_BACKEND_NEON {
            ColorConversionBackend::Neon
        } else if backend == CCAP_CONVERT_BACKEND_APPLE_ACCELERATE {
            ColorConversionBackend::Accelerate
        } else {
            ColorConversionBackend::Cpu
        }
    }
}

/// Wire code for the silent log level.
pub const CCAP_LOG_LEVEL_NONE: u32 = 0;
/// Wire code for the error log level.
pub const CCAP_LOG_LEVEL_ERROR: u32 = 1;
/// Wire code for the warning log level.
pub const CCAP_LOG_LEVEL_WARNING: u32 = 2;
/// Wire code for the info log level.
pub const CCAP_LOG_LEVEL_INFO: u32 = 3;
/// Wire code for the verbose log level.
pub const CCAP_LOG_LEVEL_VERBOSE: u32 = 4;

/// Log level enumeration
#[derive(Debug, Clone, Copy, PartialEq, Eq, Structural)]
pub enum LogLevel {
    /// No log output
    Off,
    /// Error log level
    Error,
    /// Warning log level
    Warning,
    /// Info log level
    Info,
    /// Verbose log level
    Verbose,
}

impl LogLevel {
    /// Wire code of this log level.
    pub open spec fn code(self) -> u32 {
        match self {
            LogLevel::Off => CCAP_LOG_LEVEL_NONE,
            LogLevel::Error => CCAP_LOG_LEVEL_ERROR,
            LogLevel::Warning => CCAP_LOG_LEVEL_WARNING,
            LogLevel::Info => CCAP_LOG_LEVEL_INFO,
            LogLevel::Verbose => CCAP_LOG_LEVEL_VERBOSE,
        }
    }

    /// Convert log level to its wire code
    pub fn to_c_enum(self) -> (r: u32)
        ensures
            r == self.code(),
    {
        match self {
            LogLevel::Off => CCAP_LOG_LEVEL_NONE,
            LogLevel::Error => CCAP_LOG_LEVEL_ERROR,
            LogLevel::Warning => CCAP_LOG_LEVEL_WARNING,
            LogLevel::Info => CCAP_LOG_LEVEL_INFO,
            LogLevel::Verbose => CCAP_LOG_LEVEL_VERBOSE,
        }
    }
}

/// Resolution structure
#[derive(Debug, Clone, Copy, PartialEq, Eq, Structural)]
pub struct Resolution {
    /// Width in pixels
    pub width: u32,
    /// Height in pixels
    pub height: u32,
}

/// Flags controlling the arithmetic convention and the row order of a
/// conversion.  Flags never change plane counts or buffer sizing, only the
/// coefficients and the iteration order of a kernel.
#[derive(Debug, Clone, Copy, PartialEq, Eq, Structural)]
pub struct ConversionFlags {
    /// Use the BT.709 conversion matrix instead of the default BT.601.
    pub bt709: bool,
    /// Walk source rows bottom to top instead of top to bottom.
    pub bottom_to_top: bool,
}

/// The default conversion convention: BT.601 coefficients, top-to-bottom
/// row order.
pub open spec fn default_flags() -> ConversionFlags {
    ConversionFlags { bt709: false, bottom_to_top: false }
}

impl Default for ConversionFlags {
    /// Default convention: BT.601 coefficients, top-to-bottom row order.
    fn default() -> (r: Self)
        ensures
            r == default_flags(),
    {
        ConversionFlags { bt709: false, bottom_to_top: false }
    }
}

} // verus!
