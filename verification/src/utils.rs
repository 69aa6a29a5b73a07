//! Utility functions around pixel formats and device selection.

use vstd::prelude::*;
use vstd::string::StrSliceExecFns;
use vstd::string::StringExecFns;

use crate::error::CcapError;
use crate::types::PixelFormat;

verus! {

/// ASCII lowercase of one character; characters outside `A`..`Z` are kept.
pub open spec fn lower_char(c: char) -> char {
    let v = c as u32;
    if 65 <= v && v <= 90 {
        ((v + 32) as u8) as char
    } else {
        c
    }
}

/// ASCII lowercase of a character sequence.
pub open spec fn lower_seq(s: Seq<char>) -> Seq<char> {
    Seq::new(s.len(), |i: int| lower_char(s[i]))
}

/// The pixel format a name parses to, matching names without regard to ASCII
/// case, or nothing for an unrecognized name.
pub open spec fn parse_pixel_format(s: Seq<char>) -> Option<PixelFormat> {
    if lower_seq(s) == "unknown"@ {
        Option::Some(PixelFormat::Unknown)
    } else if lower_seq(s) == "nv12"@ {
        Option::Some(PixelFormat::Nv12)
    } else if lower_seq(s) == "nv12f"@ {
        Option::Some(PixelFormat::Nv12F)
    } else if lower_seq(s) == "i420"@ {
        Option::Some(PixelFormat::I420)
    } else if lower_seq(s) == "i420f"@ {
        Option::Some(PixelFormat::I420F)
    } else if lower_seq(s) == "yuyv"@ {
        Option::Some(PixelFormat::Yuyv)
    } else if lower_seq(s) == "yuyvf"@ {
        Option::Some(PixelFormat::YuyvF)
    } else if lower_seq(s) == "uyvy"@ {
        Option::Some(PixelFormat::Uyvy)
    } else if lower_seq(s) == "uyvyf"@ {
        Option::Some(PixelFormat::UyvyF)
    } else if lower_seq(s) == "rgb24"@ {
        Option::Some(PixelFormat::Rgb24)
    } else if lower_seq(s) == "bgr24"@ {
        Option::Some(PixelFormat::Bgr24)
    } else if lower_seq(s) == "rgba32"@ {
        Option::Some(PixelFormat::Rgba32)
    } else if lower_seq(s) == "bgra32"@ {
        Option::Some(PixelFormat::Bgra32)
    } else {
        Option::None
    }
}

/// Whether the ASCII lowercase of `s` is exactly `lit`.
fn matches_lower(s: &str, lit: &str) -> (b: bool)
    ensures
        b == (lower_seq(s@) == lit@),
{
    let n = s.unicode_len();
    let m = lit.unicode_len();
    if n != m {
        proof {
            assert(lower_seq(s@).len() == s@.len());
        }
        return false;
    }
    let mut i: usize = 0;
    while i < n
        invariant
            i <= n,
            n == s@.len(),
            n == lit@.len(),
            forall|j: int| 0 <= j < i ==> lower_seq(s@)[j] == lit@[j],
        decreases n - i,
    {
        let c = s.get_char(i);
        let d = lit.get_char(i);
        let cv = c as u32;
        let lv: u32 = if 65 <= cv && cv <= 90 {
            cv + 32
        } else {
            cv
        };
        proof {
            assert(lower_seq(s@)[i as int] == lower_char(s@[i as int]));
            assert(lower_char(s@[i as int]) as u32 == lv);
        }
        if lv != d as u32 {
            proof {
                assert(lower_seq(s@)[i as int] != lit@[i as int]);
            }
            return false;
        }
        proof {
            assert(lower_char(s@[i as int]) == lit@[i as int]);
        }
        i += 1;
    }
    proof {
        assert(lower_seq(s@) =~= lit@);
    }
    true
}

/// Utility functions
pub struct Utils;

impl Utils {
    /// Convert pixel format enum to string
    pub fn pixel_format_to_string(format: PixelFormat) -> (r: Result<String, CcapError>)
        ensures
            r matches Ok(s) && s@ == format.name(),
    {
        Ok(String::from_str(format.as_str()))
    }

    /// Convert string to pixel format enum
    ///
    /// Names match without regard to ASCII case; anything else is a
    /// `StringConversionError`.
    pub fn string_to_pixel_format(format_str: &str) -> (r: Result<PixelFormat, CcapError>)
        ensures
            (match parse_pixel_format(format_str@) {
                Option::Some(f) => r matches Ok(g) && g == f,
                Option::None => (r matches Err(CcapError::StringConversionError(m)) && m@
                    == "Unknown pixel format string"@),
            }),
    {
        if matches_lower(format_str, "unknown") {
            Ok(PixelFormat::Unknown)
        } else if matches_lower(format_str, "nv12") {
            Ok(PixelFormat::Nv12)
        } else if matches_lower(format_str, "nv12f") {
            Ok(PixelFormat::Nv12F)
        } else if matches_lower(format_str, "i420") {
            Ok(PixelFormat::I420)
        } else if matches_lower(format_str, "i420f") {
            Ok(PixelFormat::I420F)
        } else if matches_lower(format_str, "yuyv") {
            Ok(PixelFormat::Yuyv)
        } else if matches_lower(format_str, "yuyvf") {
            Ok(PixelFormat::YuyvF)
        } else if matches_lower(format_str, "uyvy") {
            Ok(PixelFormat::Uyvy)
        } else if matches_lower(format_str, "uyvyf") {
            Ok(PixelFormat::UyvyF)
        } else if matches_lower(format_str, "rgb24") {
            Ok(PixelFormat::Rgb24)
        } else if matches_lower(format_str, "bgr24") {
            Ok(PixelFormat::Bgr24)
        } else if matches_lower(format_str, "rgba32") {
            Ok(PixelFormat::Rgba32)
        } else if matches_lower(format_str, "bgra32") {
            Ok(PixelFormat::Bgra32)
        } else {
            Err(CcapError::StringConversionError(String::from_str("Unknown pixel format string")))
        }
    }

    /// Decide which device an interactive selection uses: the only device
    /// when there is exactly one, the requested index when it is in range,
    /// and the first device for an out-of-range request.  An empty device
    /// list has nothing to select.
    pub fn select_camera_index(device_count: usize, requested: usize) -> (r: Result<
        usize,
        CcapError,
    >)
        ensures
            device_count == 0 ==> r matches Err(CcapError::DeviceNotFound),
            device_count == 1 ==> (r matches Ok(i) && i == 0),
            device_count > 1 && requested >= device_count ==> (r matches Ok(i) && i == 0),
            device_count > 1 && requested < device_count ==> (r matches Ok(i) && i == requested),
    {
        if device_count == 0 {
            Err(CcapError::DeviceNotFound)
        } else if device_count == 1 {
            Ok(0)
        } else if requested >= device_count {
            Ok(0)
        } else {
            Ok(requested)
        }
    }
}

} // verus!
