//! Owned video frame values and device metadata.
//!
//! A frame here is a plain value: its pixel data together with the metadata
//! the capture layer reports for it.  The conversion core operates on plain
//! buffers, so a frame carries everything a caller needs to hand its planes
//! to a conversion entry point.

use vstd::prelude::*;

use crate::error::CcapError;
use crate::types::FrameOrientation;
use crate::types::PixelFormat;
use crate::types::Resolution;

verus! {

/// Device information structure
#[derive(Debug, Clone)]
pub struct DeviceInfo {
    /// Device name
    pub name: String,
    /// Supported pixel formats
    pub supported_pixel_formats: Vec<PixelFormat>,
    /// Supported resolutions
    pub supported_resolutions: Vec<Resolution>,
}

/// High-level video frame information
#[derive(Debug, Clone, Copy, PartialEq, Eq)]
pub struct VideoFrameInfo {
    /// Frame width in pixels
    pub width: u32,
    /// Frame height in pixels
    pub height: u32,
    /// Pixel format of the frame
    pub pixel_format: PixelFormat,
    /// Size of frame data in bytes
    pub size_in_bytes: u32,
    /// Frame timestamp
    pub timestamp: u64,
    /// Frame sequence index
    pub frame_index: u64,
    /// Frame orientation
    pub orientation: FrameOrientation,
    /// Stride values for each plane
    pub strides: [u32; 3],
}

/// Video frame: pixel data with the metadata reported for it.
pub struct VideoFrame {
    width: u32,
    height: u32,
    pixel_format: PixelFormat,
    orientation: FrameOrientation,
    timestamp: u64,
    frame_index: u64,
    strides: [u32; 3],
    data: Vec<u8>,
}

impl VideoFrame {
    /// The metadata of this frame, as one record.
    pub closed spec fn spec_info(&self) -> VideoFrameInfo {
        VideoFrameInfo {
            width: self.width,
            height: self.height,
            pixel_format: self.pixel_format,
            size_in_bytes: self.data@.len() as u32,
            timestamp: self.timestamp,
            frame_index: self.frame_index,
            orientation: self.orientation,
            strides: self.strides,
        }
    }

    /// The pixel data of this frame.
    pub closed spec fn spec_data(&self) -> Seq<u8> {
        self.data@
    }

    /// Assemble a frame from captured pixel data and its metadata.
    pub fn new(
        width: u32,
        height: u32,
        pixel_format: PixelFormat,
        orientation: FrameOrientation,
        timestamp: u64,
        frame_index: u64,
        strides: [u32; 3],
        data: Vec<u8>,
    ) -> (f: VideoFrame)
        requires
            data@.len() <= u32::MAX,
        ensures
            f.spec_info() == (VideoFrameInfo {
                width,
                height,
                pixel_format,
                size_in_bytes: data@.len() as u32,
                timestamp,
                frame_index,
                orientation,
                strides,
            }),
            f.spec_data() == data@,
    {
        VideoFrame {
            width,
            height,
            pixel_format,
            orientation,
            timestamp,
            frame_index,
            strides,
            data,
        }
    }

    /// Get frame information
    pub fn info(&self) -> (r: Result<VideoFrameInfo, CcapError>)
        requires
            self.spec_data().len() <= u32::MAX,
        ensures
            r matches Ok(i) && i == self.spec_info(),
    {
        Ok(
            VideoFrameInfo {
                width: self.width,
                height: self.height,
                pixel_format: self.pixel_format,
                size_in_bytes: self.data.len() as u32,
                timestamp: self.timestamp,
                frame_index: self.frame_index,
                orientation: self.orientation,
                strides: self.strides,
            },
        )
    }

    /// Get all frame data as a slice
    pub fn data(&self) -> (r: Result<&[u8], CcapError>)
        ensures
            r matches Ok(d) && d@ == self.spec_data(),
    {
        Ok(self.data.as_slice())
    }

    /// Get frame width (convenience method)
    pub fn width(&self) -> (r: u32)
        ensures
            r == self.spec_info().width,
    {
        self.width
    }

    /// Get frame height (convenience method)
    pub fn height(&self) -> (r: u32)
        ensures
            r == self.spec_info().height,
    {
        self.height
    }

    /// Get pixel format (convenience method)
    pub fn pixel_format(&self) -> (r: PixelFormat)
        ensures
            r == self.spec_info().pixel_format,
    {
        self.pixel_format
    }

    /// Get data size in bytes (convenience method)
    pub fn data_size(&self) -> (r: u32)
        requires
            self.spec_data().len() <= u32::MAX,
        ensures
            r == self.spec_info().size_in_bytes,
    {
        self.data.len() as u32
    }

    /// Get frame index (convenience method)
    pub fn index(&self) -> (r: u64)
        ensures
            r == self.spec_info().frame_index,
    {
        self.frame_index
    }
}

} // verus!
