//! Error values reported by the capture and conversion layers.

use vstd::prelude::*;
use vstd::string::StringExecFns;

use crate::types::PixelFormat;

verus! {

/// Wire code reporting success.
pub const CCAP_ERROR_NONE: i32 = 0;
/// Wire code: no camera device found.
pub const CCAP_ERROR_NO_DEVICE_FOUND: i32 = 1;
/// Wire code: invalid device specified.
pub const CCAP_ERROR_INVALID_DEVICE: i32 = 2;
/// Wire code: camera device open failed.
pub const CCAP_ERROR_DEVICE_OPEN_FAILED: i32 = 3;
/// Wire code: capture start failed.
pub const CCAP_ERROR_DEVICE_START_FAILED: i32 = 4;
/// Wire code: capture stop failed.
pub const CCAP_ERROR_DEVICE_STOP_FAILED: i32 = 5;
/// Wire code: frame capture failed.
pub const CCAP_ERROR_FRAME_CAPTURE_FAILED: i32 = 6;
/// Wire code: frame capture timed out.
pub const CCAP_ERROR_FRAME_CAPTURE_TIMEOUT: i32 = 7;
/// Wire code: pixel format not supported.
pub const CCAP_ERROR_UNSUPPORTED_PIXEL_FORMAT: i32 = 8;
/// Wire code: resolution not supported.
pub const CCAP_ERROR_UNSUPPORTED_RESOLUTION: i32 = 9;
/// Wire code: property set failed.
pub const CCAP_ERROR_PROPERTY_SET_FAILED: i32 = 10;
/// Wire code: memory allocation failed.
pub const CCAP_ERROR_MEMORY_ALLOCATION_FAILED: i32 = 11;
/// Wire code: internal error.
pub const CCAP_ERROR_INTERNAL_ERROR: i32 = 12;

/// Error types for ccap operations
#[derive(Debug)]
pub enum CcapError {
    /// No error occurred
    NoError,
    /// No camera device found
    NoDeviceFound,
    /// Invalid device specified
    InvalidDevice(String),
    /// Camera device open failed
    DeviceOpenFailed,
    /// Device already opened
    DeviceAlreadyOpened,
    /// Device not opened
    DeviceNotOpened,
    /// Capture start failed
    CaptureStartFailed,
    /// Capture stop failed
    CaptureStopFailed,
    /// Frame grab failed
    FrameGrabFailed,
    /// Timeout occurred
    Timeout,
    /// Invalid parameter
    InvalidParameter(String),
    /// Not supported operation
    NotSupported,
    /// Backend set failed
    BackendSetFailed,
    /// String conversion error
    StringConversionError(String),
    /// File operation failed
    FileOperationFailed(String),
    /// Device not found (alias for NoDeviceFound for compatibility)
    DeviceNotFound,
    /// Internal error
    InternalError(String),
    /// Unknown error with error code
    Unknown {
        /// Error code from the underlying system
        code: i32,
    },
}

impl CcapError {
    /// What a wire code decodes to; unrecognized codes decode to `Unknown`.
    /// The detail string of the two variants that carry one is empty after
    /// decoding, and `String` values have no exact specification-level
    /// equality, so decoding is stated as a relation.
    pub open spec fn decodes_to(code: i32, r: CcapError) -> bool {
        if code == CCAP_ERROR_NONE {
            r == CcapError::NoError
        } else if code == CCAP_ERROR_NO_DEVICE_FOUND {
            r == CcapError::NoDeviceFound
        } else if code == CCAP_ERROR_INVALID_DEVICE {
            r matches CcapError::InvalidDevice(s) && s@ == Seq::<char>::empty()
        } else if code == CCAP_ERROR_DEVICE_OPEN_FAILED {
            r == CcapError::DeviceOpenFailed
        } else if code == CCAP_ERROR_DEVICE_START_FAILED {
            r == CcapError::CaptureStartFailed
        } else if code == CCAP_ERROR_DEVICE_STOP_FAILED {
            r == CcapError::CaptureStopFailed
        } else if code == CCAP_ERROR_FRAME_CAPTURE_FAILED {
            r == CcapError::FrameGrabFailed
        } else if code == CCAP_ERROR_FRAME_CAPTURE_TIMEOUT {
            r == CcapError::Timeout
        } else if code == CCAP_ERROR_UNSUPPORTED_PIXEL_FORMAT {
            r == CcapError::NotSupported
        } else if code == CCAP_ERROR_UNSUPPORTED_RESOLUTION {
            r == CcapError::NotSupported
        } else if code == CCAP_ERROR_PROPERTY_SET_FAILED {
            r matches CcapError::InvalidParameter(s) && s@ == Seq::<char>::empty()
        } else {
            r == (CcapError::Unknown { code })
        }
    }

    /// Fixed descriptive text of each error variant.  Variants carrying a
    /// detail string or a code describe themselves by the fixed prefix alone.
    pub open spec fn text(self) -> Seq<char> {
        match self {
            CcapError::NoError => "No error"@,
            CcapError::NoDeviceFound => "No camera device found"@,
            CcapError::InvalidDevice(name) => "Invalid device: "@ + name@,
            CcapError::DeviceOpenFailed => "Camera device open failed"@,
            CcapError::DeviceAlreadyOpened => "Device already opened"@,
            CcapError::DeviceNotOpened => "Device not opened"@,
            CcapError::CaptureStartFailed => "Capture start failed"@,
            CcapError::CaptureStopFailed => "Capture stop failed"@,
            CcapError::FrameGrabFailed => "Frame grab failed"@,
            CcapError::Timeout => "Timeout occurred"@,
            CcapError::InvalidParameter(param) => "Invalid parameter: "@ + param@,
            CcapError::NotSupported => "Operation not supported"@,
            CcapError::BackendSetFailed => "Backend set failed"@,
            CcapError::StringConversionError(msg) => "String conversion error: "@ + msg@,
            CcapError::FileOperationFailed(msg) => "File operation failed: "@ + msg@,
            CcapError::DeviceNotFound => "Device not found"@,
            CcapError::InternalError(msg) => "Internal error: "@ + msg@,
            CcapError::Unknown { code } => "Unknown error"@,
        }
    }

    /// Human-readable description of this error.  The numeric code of an
    /// `Unknown` error is not rendered into the text.
    pub fn message(&self) -> (m: String)
        ensures
            m@ == self.text(),
    {
        match self {
            CcapError::NoError => String::from_str("No error"),
            CcapError::NoDeviceFound => String::from_str("No camera device found"),
            CcapError::InvalidDevice(name) => {
                let mut m = String::from_str("Invalid device: ");
                m.append(name.as_str());
                m
            },
            CcapError::DeviceOpenFailed => String::from_str("Camera device open failed"),
            CcapError::DeviceAlreadyOpened => String::from_str("Device already opened"),
            CcapError::DeviceNotOpened => String::from_str("Device not opened"),
            CcapError::CaptureStartFailed => String::from_str("Capture start failed"),
            CcapError::CaptureStopFailed => String::from_str("Capture stop failed"),
            CcapError::FrameGrabFailed => String::from_str("Frame grab failed"),
            CcapError::Timeout => String::from_str("Timeout occurred"),
            CcapError::InvalidParameter(param) => {
                let mut m = String::from_str("Invalid parameter: ");
                m.append(param.as_str());
                m
            },
            CcapError::NotSupported => String::from_str("Operation not supported"),
            CcapError::BackendSetFailed => String::from_str("Backend set failed"),
            CcapError::StringConversionError(msg) => {
                let mut m = String::from_str("String conversion error: ");
                m.append(msg.as_str());
                m
            },
            CcapError::FileOperationFailed(msg) => {
                let mut m = String::from_str("File operation failed: ");
                m.append(msg.as_str());
                m
            },
            CcapError::DeviceNotFound => String::from_str("Device not found"),
            CcapError::InternalError(msg) => {
                let mut m = String::from_str("Internal error: ");
                m.append(msg.as_str());
                m
            },
            CcapError::Unknown { code: _ } => String::from_str("Unknown error"),
        }
    }
}

impl vstd::std_specs::convert::FromSpecImpl<i32> for CcapError {
    open spec fn obeys_from_spec() -> bool {
        // The decoded value of two codes holds a `String`, and a `String`
        // cannot be pinned by a single specification value; the contract of
        // `from` is stated on the impl itself as `decodes_to`.
        false
    }

    open spec fn from_spec(code: i32) -> Self {
        CcapError::Unknown { code }
    }
}

impl From<i32> for CcapError {
    /// Decode a wire error code.
    fn from(code: i32) -> (r: Self)
        ensures
            CcapError::decodes_to(code, r),
    {
        if code == CCAP_ERROR_NONE {
            CcapError::NoError
        } else if code == CCAP_ERROR_NO_DEVICE_FOUND {
            CcapError::NoDeviceFound
        } else if code == CCAP_ERROR_INVALID_DEVICE {
            CcapError::InvalidDevice(String::new())
        } else if code == CCAP_ERROR_DEVICE_OPEN_FAILED {
            CcapError::DeviceOpenFailed
        } else if code == CCAP_ERROR_DEVICE_START_FAILED {
            CcapError::CaptureStartFailed
        } else if code == CCAP_ERROR_DEVICE_STOP_FAILED {
            CcapError::CaptureStopFailed
        } else if code == CCAP_ERROR_FRAME_CAPTURE_FAILED {
            CcapError::FrameGrabFailed
        } else if code == CCAP_ERROR_FRAME_CAPTURE_TIMEOUT {
            CcapError::Timeout
        } else if code == CCAP_ERROR_UNSUPPORTED_PIXEL_FORMAT {
            CcapError::NotSupported
        } else if code == CCAP_ERROR_UNSUPPORTED_RESOLUTION {
            CcapError::NotSupported
        } else if code == CCAP_ERROR_PROPERTY_SET_FAILED {
            CcapError::InvalidParameter(String::new())
        } else {
            CcapError::Unknown { code }
        }
    }
}

/// Error taxonomy of the conversion core.  `BufferTooSmall` and
/// `UnsupportedConversion` are the only failures a conversion can report;
/// backend unavailability is reported only by explicit backend selection.
#[derive(Debug, Clone, Copy, PartialEq, Eq, Structural)]
pub enum ConversionError {
    /// The caller supplied less memory than the declared dimensions and
    /// stride require.
    BufferTooSmall {
        /// Bytes the declared dimensions and stride require (saturated at
        /// `usize::MAX`).  Where the declared stride is below the tight row
        /// size, the requirement is computed with the tight row size instead.
        needed: usize,
        /// Bytes the caller actually supplied.
        got: usize,
    },
    /// No kernel is registered for this source/destination format pair.
    UnsupportedConversion {
        /// Source format of the rejected request.
        src: PixelFormat,
        /// Destination format of the rejected request.
        dst: PixelFormat,
    },
}

} // verus!
