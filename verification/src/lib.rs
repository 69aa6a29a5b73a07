//! Camera frame color conversion core.
//!
//! Converts raw video frames between the pixel encodings produced by camera
//! hardware (packed and planar YUV variants) and the packed RGB/BGR encodings
//! consumed by applications.  Every conversion entry point validates the
//! caller-supplied buffers before any byte of the destination is produced, and
//! every kernel's output is pinned, byte for byte, by a specification
//! function over the source planes.

use vstd::prelude::*;

pub mod color;
pub mod convert;
pub mod error;
pub mod frame;
pub mod kernels;
pub mod laws;
pub mod layout;
pub mod types;
pub mod utils;

pub use convert::Convert;
pub use error::CcapError;
pub use error::ConversionError;
pub use frame::DeviceInfo;
pub use frame::VideoFrame;
pub use frame::VideoFrameInfo;
pub use types::ColorConversionBackend;
pub use types::ConversionFlags;
pub use types::FrameOrientation;
pub use types::LogLevel;
pub use types::PixelFormat;
pub use types::PropertyName;
pub use types::Resolution;
pub use utils::Utils;

verus! {

/// Largest number of capture devices a device table may describe.
pub const CCAP_MAX_DEVICES: u32 = 64;

/// Largest device name length, in bytes, a device table may carry.
pub const CCAP_MAX_DEVICE_NAME_LENGTH: u32 = 256;

/// Library version string.
pub fn version() -> (r: Result<String, error::CcapError>)
    ensures
        r matches Ok(v) && v@ == "1.0.0"@,
{
    Ok("1.0.0".to_owned())
}

} // verus!
