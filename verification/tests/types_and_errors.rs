//! Tests for the enumerations, wire codes, error values and utility parsing.

use ccap::error::CCAP_ERROR_NO_DEVICE_FOUND;
use ccap::types::CCAP_PIXEL_FORMAT_NV12;
use ccap::CcapError;
use ccap::FrameOrientation;
use ccap::LogLevel;
use ccap::PixelFormat;
use ccap::PropertyName;
use ccap::Utils;

#[test]
fn test_simple_test_pixel_format_conversion() {
    let pf = PixelFormat::from_c_enum(CCAP_PIXEL_FORMAT_NV12);
    assert_eq!(pf, PixelFormat::Nv12);
}

#[test]
fn test_error_conversion() {
    let error = CcapError::from(CCAP_ERROR_NO_DEVICE_FOUND);
    match error {
        CcapError::NoDeviceFound => {},
        _ => panic!("Unexpected error type"),
    }
}

#[test]
fn test_constants() {
    assert!(ccap::CCAP_MAX_DEVICES > 0);
    assert!(ccap::CCAP_MAX_DEVICE_NAME_LENGTH > 0);
}

#[test]
fn test_library_version() {
    let version = ccap::version().expect("Failed to get version");
    assert!(!version.is_empty());
    assert!(version.contains('.'));
    println!("ccap version: {}", version);
}

#[test]
fn integration_tests_test_pixel_format_conversion() {
    let format = PixelFormat::Rgb24;
    let c_format = format.to_c_enum();
    let format_back = PixelFormat::from_c_enum(c_format);
    assert_eq!(format, format_back);
}

#[test]
fn test_error_types() {
    let error = CcapError::NoDeviceFound;
    let error_str = error.message();
    assert!(error_str.contains("No camera device found"));
}

#[test]
fn test_pixel_format_roundtrip_all() {
    let formats = vec![
        PixelFormat::Unknown,
        PixelFormat::Nv12,
        PixelFormat::Nv12F,
        PixelFormat::I420,
        PixelFormat::I420F,
        PixelFormat::Yuyv,
        PixelFormat::YuyvF,
        PixelFormat::Uyvy,
        PixelFormat::UyvyF,
        PixelFormat::Rgb24,
        PixelFormat::Bgr24,
        PixelFormat::Rgba32,
        PixelFormat::Bgra32,
    ];
    for f in formats {
        assert_eq!(PixelFormat::from_c_enum(f.to_c_enum()), f);
    }
}

#[test]
fn test_pixel_format_from_unrecognized_code() {
    assert_eq!(PixelFormat::from_c_enum(999), PixelFormat::Unknown);
}

#[test]
fn test_pixel_format_as_str() {
    assert_eq!(PixelFormat::Nv12.as_str(), "NV12");
    assert_eq!(PixelFormat::YuyvF.as_str(), "YUYV_F");
    assert_eq!(PixelFormat::Rgb24.as_str(), "RGB24");
    assert_eq!(PixelFormat::Unknown.as_str(), "Unknown");
}

#[test]
fn test_pixel_format_to_string() {
    let s = Utils::pixel_format_to_string(PixelFormat::Bgra32).unwrap();
    assert_eq!(s, "BGRA32");
}

#[test]
fn test_string_to_pixel_format_cases() {
    assert_eq!(Utils::string_to_pixel_format("nv12").unwrap(), PixelFormat::Nv12);
    assert_eq!(Utils::string_to_pixel_format("NV12").unwrap(), PixelFormat::Nv12);
    assert_eq!(Utils::string_to_pixel_format("Yuyv").unwrap(), PixelFormat::Yuyv);
    assert_eq!(Utils::string_to_pixel_format("yuyvf").unwrap(), PixelFormat::YuyvF);
    assert_eq!(Utils::string_to_pixel_format("RGBA32").unwrap(), PixelFormat::Rgba32);
    assert_eq!(Utils::string_to_pixel_format("unknown").unwrap(), PixelFormat::Unknown);
    match Utils::string_to_pixel_format("notaformat") {
        Err(CcapError::StringConversionError(m)) => {
            assert_eq!(m, "Unknown pixel format string");
        },
        _ => panic!("expected a string conversion error"),
    }
    assert!(Utils::string_to_pixel_format("nv1").is_err());
    assert!(Utils::string_to_pixel_format("").is_err());
}

#[test]
fn test_error_message_with_detail() {
    let error = CcapError::InvalidDevice(String::from("cam0"));
    assert_eq!(error.message(), "Invalid device: cam0");
    let error = CcapError::Unknown { code: 42 };
    assert_eq!(error.message(), "Unknown error");
}

#[test]
fn test_error_from_codes() {
    assert!(matches!(CcapError::from(0), CcapError::NoError));
    assert!(matches!(CcapError::from(7), CcapError::Timeout));
    assert!(matches!(CcapError::from(8), CcapError::NotSupported));
    match CcapError::from(2) {
        CcapError::InvalidDevice(s) => assert_eq!(s, ""),
        _ => panic!("expected an invalid device error"),
    }
    assert!(matches!(CcapError::from(-5), CcapError::Unknown { code: -5 }));
}

#[test]
fn test_property_and_log_level_codes() {
    assert_eq!(PropertyName::Width.to_c_enum(), 0);
    assert_eq!(PropertyName::FrameOrientation.to_c_enum(), 5);
    assert_eq!(LogLevel::Off.to_c_enum(), 0);
    assert_eq!(LogLevel::Verbose.to_c_enum(), 4);
}

#[test]
fn test_frame_orientation_codes() {
    assert_eq!(FrameOrientation::from_c_enum(0), FrameOrientation::TopToBottom);
    assert_eq!(FrameOrientation::from_c_enum(1), FrameOrientation::BottomToTop);
    assert_eq!(FrameOrientation::from_c_enum(9), FrameOrientation::TopToBottom);
}

#[test]
fn test_select_camera_index() {
    assert!(matches!(
        Utils::select_camera_index(0, 0),
        Err(CcapError::DeviceNotFound)
    ));
    assert_eq!(Utils::select_camera_index(1, 5).unwrap(), 0);
    assert_eq!(Utils::select_camera_index(3, 2).unwrap(), 2);
    assert_eq!(Utils::select_camera_index(3, 7).unwrap(), 0);
}
