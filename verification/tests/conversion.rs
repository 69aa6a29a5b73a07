//! Tests for the conversion kernels, the dispatcher, buffer validation and
//! the backend registry.

use ccap::convert::convert;
use ccap::layout::descriptor;
use ccap::layout::required_bytes;
use ccap::layout::validate;
use ccap::ColorConversionBackend;
use ccap::ConversionError;
use ccap::ConversionFlags;
use ccap::Convert;
use ccap::FrameOrientation;
use ccap::PixelFormat;
use ccap::VideoFrame;

fn default_flags() -> ConversionFlags {
    ConversionFlags { bt709: false, bottom_to_top: false }
}

#[test]
fn rgb_to_bgr_swaps_exactly() {
    // 4x4 frame whose rows repeat red, green, blue, white by (x + y) % 4.
    let red: [u8; 3] = [255, 0, 0];
    let green: [u8; 3] = [0, 255, 0];
    let blue: [u8; 3] = [0, 0, 255];
    let white: [u8; 3] = [255, 255, 255];
    let palette = [red, green, blue, white];
    let mut src: Vec<u8> = Vec::new();
    for y in 0..4usize {
        for x in 0..4usize {
            src.extend_from_slice(&palette[(x + y) % 4]);
        }
    }
    let dst = Convert::rgb_to_bgr(&src, 12, 4, 4).unwrap();
    assert_eq!(dst.len(), 48);
    for p in 0..16usize {
        assert_eq!(dst[3 * p], src[3 * p + 2]);
        assert_eq!(dst[3 * p + 1], src[3 * p + 1]);
        assert_eq!(dst[3 * p + 2], src[3 * p]);
    }
}

#[test]
fn rgb_bgr_round_trip_is_identity() {
    let mut src: Vec<u8> = Vec::new();
    for i in 0..3 * 5 * 3 {
        src.push((i * 37 % 256) as u8);
    }
    let once = Convert::rgb_to_bgr(&src, 15, 5, 3).unwrap();
    let twice = Convert::bgr_to_rgb(&once, 15, 5, 3).unwrap();
    assert_eq!(twice, src);
}

#[test]
fn rgb_to_bgr_honors_stride_padding() {
    // 2x2 frame with stride 8: two padding bytes per row are never read into
    // the output.
    let src: Vec<u8> = vec![
        1, 2, 3, 4, 5, 6, 99, 99,
        7, 8, 9, 10, 11, 12, 99, 99,
    ];
    let dst = Convert::rgb_to_bgr(&src, 8, 2, 2).unwrap();
    assert_eq!(dst, vec![3, 2, 1, 6, 5, 4, 9, 8, 7, 12, 11, 10]);
}

#[test]
fn nv12_gray_16x16_is_neutral() {
    let y = vec![128u8; 16 * 16];
    let uv = vec![128u8; 16 * 8];
    let rgb = Convert::nv12_to_rgb24(&y, 16, &uv, 16, 16, 16).unwrap();
    assert_eq!(rgb.len(), 16 * 16 * 3);
    for &b in &rgb {
        assert!((100..=156).contains(&b));
    }
    // This rounding is bias-free: mid-scale gray converts exactly.
    assert!(rgb.iter().all(|&b| b == 128));
}

#[test]
fn i420_and_yuyv_gray_are_neutral() {
    let y = vec![128u8; 8 * 6];
    let u = vec![128u8; 4 * 3];
    let v = vec![128u8; 4 * 3];
    let rgb = Convert::i420_to_rgb24(&y, 8, &u, 4, &v, 4, 8, 6).unwrap();
    assert!(rgb.iter().all(|&b| b == 128));
    let yuyv = vec![128u8; 2 * 8 * 6];
    let rgb = Convert::yuyv_to_rgb24(&yuyv, 16, 8, 6).unwrap();
    assert!(rgb.iter().all(|&b| b == 128));
}

#[test]
fn yuyv_known_pixel_values() {
    // One row, two pixels sharing the chroma pair (U = 90, V = 240): both
    // convert to the same saturated red under the BT.601 matrix.
    let src: Vec<u8> = vec![81, 90, 81, 240];
    let rgb = Convert::yuyv_to_rgb24(&src, 4, 2, 1).unwrap();
    assert_eq!(rgb, vec![238, 14, 14, 238, 14, 14]);
    let bgr = Convert::yuyv_to_bgr24(&src, 4, 2, 1).unwrap();
    assert_eq!(bgr, vec![14, 14, 238, 14, 14, 238]);
}

#[test]
fn nv12_known_pixel_values() {
    // 2x2 frame, one chroma pair for the whole block.
    let y = vec![81u8, 81, 81, 81];
    let uv = vec![90u8, 240];
    let rgb = Convert::nv12_to_rgb24(&y, 2, &uv, 2, 2, 2).unwrap();
    for p in 0..4usize {
        assert_eq!(&rgb[3 * p..3 * p + 3], &[238, 14, 14]);
    }
    let bgr = Convert::nv12_to_bgr24(&y, 2, &uv, 2, 2, 2).unwrap();
    for p in 0..4usize {
        assert_eq!(&bgr[3 * p..3 * p + 3], &[14, 14, 238]);
    }
}

#[test]
fn i420_known_pixel_values() {
    let y = vec![81u8, 81, 81, 81];
    let u = vec![90u8];
    let v = vec![240u8];
    let rgb = Convert::i420_to_rgb24(&y, 2, &u, 1, &v, 1, 2, 2).unwrap();
    for p in 0..4usize {
        assert_eq!(&rgb[3 * p..3 * p + 3], &[238, 14, 14]);
    }
    let bgr = Convert::i420_to_bgr24(&y, 2, &u, 1, &v, 1, 2, 2).unwrap();
    for p in 0..4usize {
        assert_eq!(&bgr[3 * p..3 * p + 3], &[14, 14, 238]);
    }
}

#[test]
fn luma_extremes_convert_exactly() {
    // Neutral chroma leaves luma untouched at both video-range extremes.
    let src: Vec<u8> = vec![235, 128, 16, 128];
    let rgb = Convert::yuyv_to_rgb24(&src, 4, 2, 1).unwrap();
    assert_eq!(rgb, vec![235, 235, 235, 16, 16, 16]);
}

#[test]
fn short_buffers_are_rejected() {
    // Every entry point fails closed on a source shorter than required.
    assert!(Convert::yuyv_to_rgb24(&[0u8; 31], 8, 4, 4).is_err());
    assert!(Convert::yuyv_to_bgr24(&[0u8; 31], 8, 4, 4).is_err());
    assert!(Convert::rgb_to_bgr(&[0u8; 47], 12, 4, 4).is_err());
    assert!(Convert::bgr_to_rgb(&[0u8; 47], 12, 4, 4).is_err());
    let y_ok = [128u8; 16];
    let uv_short = [128u8; 7];
    assert!(Convert::nv12_to_rgb24(&[0u8; 15], 4, &uv_short, 4, 4, 4).is_err());
    assert!(Convert::nv12_to_rgb24(&y_ok, 4, &uv_short, 4, 4, 4).is_err());
    assert!(Convert::nv12_to_bgr24(&y_ok, 4, &uv_short, 4, 4, 4).is_err());
    let u_ok = [128u8; 4];
    let v_short = [128u8; 3];
    assert!(Convert::i420_to_rgb24(&y_ok, 4, &u_ok, 2, &v_short, 2, 4, 4).is_err());
    assert!(Convert::i420_to_bgr24(&y_ok, 4, &u_ok, 2, &v_short, 2, 4, 4).is_err());
}

#[test]
fn short_stride_is_rejected() {
    // A stride below the tight row size cannot hold the declared width.
    let src = [0u8; 1000];
    assert!(Convert::rgb_to_bgr(&src, 11, 4, 4).is_err());
    assert!(Convert::yuyv_to_rgb24(&src, 7, 4, 4).is_err());
}

#[test]
fn convert_reports_buffer_too_small_exactly() {
    let short = [0u8; 40];
    let r = convert(
        PixelFormat::Rgb24,
        PixelFormat::Bgr24,
        &short,
        None,
        None,
        12,
        0,
        0,
        4,
        4,
        default_flags(),
    );
    match r {
        Err(ConversionError::BufferTooSmall { needed, got }) => {
            assert_eq!(needed, 48);
            assert_eq!(got, 40);
        },
        _ => panic!("expected a buffer size rejection"),
    }
}

#[test]
fn convert_rejects_missing_chroma_plane() {
    let y = [128u8; 16];
    let r = convert(
        PixelFormat::Nv12,
        PixelFormat::Rgb24,
        &y,
        None,
        None,
        4,
        4,
        0,
        4,
        4,
        default_flags(),
    );
    match r {
        Err(ConversionError::BufferTooSmall { needed, got }) => {
            assert_eq!(needed, 8);
            assert_eq!(got, 0);
        },
        _ => panic!("expected a buffer size rejection"),
    }
}

#[test]
fn convert_rejects_unsupported_pairs() {
    let src = [0u8; 64];
    let r = convert(
        PixelFormat::Rgba32,
        PixelFormat::Rgb24,
        &src,
        None,
        None,
        16,
        0,
        0,
        4,
        4,
        default_flags(),
    );
    match r {
        Err(ConversionError::UnsupportedConversion { src, dst }) => {
            assert_eq!(src, PixelFormat::Rgba32);
            assert_eq!(dst, PixelFormat::Rgb24);
        },
        _ => panic!("expected an unsupported conversion"),
    }
    assert!(convert(
        PixelFormat::Rgb24,
        PixelFormat::Rgb24,
        &src,
        None,
        None,
        16,
        0,
        0,
        4,
        4,
        default_flags(),
    )
    .is_err());
}

#[test]
fn convert_dispatches_like_the_entry_points() {
    let y = vec![81u8, 90, 81, 240];
    let via_convert = convert(
        PixelFormat::Yuyv,
        PixelFormat::Rgb24,
        &y,
        None,
        None,
        4,
        0,
        0,
        2,
        1,
        default_flags(),
    )
    .unwrap();
    let direct = Convert::yuyv_to_rgb24(&y, 4, 2, 1).unwrap();
    assert_eq!(via_convert, direct);
}

#[test]
fn convert_honors_row_order_flag() {
    let src: Vec<u8> = vec![1, 2, 3, 4, 5, 6];
    let flipped = convert(
        PixelFormat::Rgb24,
        PixelFormat::Bgr24,
        &src,
        None,
        None,
        3,
        0,
        0,
        1,
        2,
        ConversionFlags { bt709: false, bottom_to_top: true },
    )
    .unwrap();
    assert_eq!(flipped, vec![6, 5, 4, 3, 2, 1]);
}

#[test]
fn convert_honors_matrix_flag() {
    let src: Vec<u8> = vec![81, 90, 81, 240];
    let bt709 = convert(
        PixelFormat::Yuyv,
        PixelFormat::Rgb24,
        &src,
        None,
        None,
        4,
        0,
        0,
        2,
        1,
        ConversionFlags { bt709: true, bottom_to_top: false },
    )
    .unwrap();
    assert_eq!(&bt709[0..3], &[255, 36, 10]);
}

#[test]
fn backend_switch_does_not_change_output() {
    let mut registry = Convert::new(true, true, true);
    let y = vec![81u8; 16];
    let uv = vec![90u8, 240, 90, 240, 90, 240, 90, 240];
    let backends = [
        ColorConversionBackend::Cpu,
        ColorConversionBackend::Avx2,
        ColorConversionBackend::Neon,
        ColorConversionBackend::Accelerate,
    ];
    let reference = Convert::nv12_to_rgb24(&y, 4, &uv, 4, 4, 4).unwrap();
    let perm_src: Vec<u8> = (0u8..48).collect();
    let perm_reference = Convert::rgb_to_bgr(&perm_src, 12, 4, 4).unwrap();
    for b in backends {
        registry.set_backend(b).unwrap();
        assert_eq!(registry.backend(), b);
        let again = Convert::nv12_to_rgb24(&y, 4, &uv, 4, 4, 4).unwrap();
        assert_eq!(again, reference);
        let perm_again = Convert::rgb_to_bgr(&perm_src, 12, 4, 4).unwrap();
        assert_eq!(perm_again, perm_reference);
    }
}

#[test]
fn backend_registry_selection() {
    let registry = Convert::new(false, false, false);
    assert_eq!(registry.backend(), ColorConversionBackend::Cpu);
    assert!(!registry.has_avx2());
    assert!(!registry.has_neon());
    assert!(!registry.has_apple_accelerate());
    let registry = Convert::new(true, false, false);
    assert_eq!(registry.backend(), ColorConversionBackend::Avx2);
    let registry = Convert::new(true, true, true);
    assert_eq!(registry.backend(), ColorConversionBackend::Accelerate);
    assert!(registry.has_avx2() && registry.has_neon() && registry.has_apple_accelerate());
}

#[test]
fn backend_set_failure_keeps_state() {
    let mut registry = Convert::new(false, true, false);
    assert_eq!(registry.backend(), ColorConversionBackend::Neon);
    let r = registry.set_backend(ColorConversionBackend::Avx2);
    assert!(r.is_err());
    assert_eq!(registry.backend(), ColorConversionBackend::Neon);
    registry.set_backend(ColorConversionBackend::Cpu).unwrap();
    assert_eq!(registry.backend(), ColorConversionBackend::Cpu);
}

#[test]
fn required_bytes_formula() {
    // Plane heights: full height for luma and packed planes, rounded-up half
    // height for chroma planes.
    assert_eq!(required_bytes(PixelFormat::Rgb24, 0, 4, 4, 12), 48);
    assert_eq!(required_bytes(PixelFormat::Yuyv, 0, 4, 5, 10), 50);
    assert_eq!(required_bytes(PixelFormat::Nv12, 0, 7, 5, 7), 35);
    assert_eq!(required_bytes(PixelFormat::Nv12, 1, 7, 5, 8), 24);
    assert_eq!(required_bytes(PixelFormat::I420, 1, 7, 5, 4), 12);
    assert_eq!(required_bytes(PixelFormat::I420, 2, 7, 4, 4), 8);
    // A plane the format does not have needs nothing.
    assert_eq!(required_bytes(PixelFormat::Rgb24, 1, 4, 4, 12), 0);
}

#[test]
fn validate_reports_exact_requirements() {
    let buf = [0u8; 20];
    match validate(&buf, PixelFormat::Nv12, 1, 7, 5, 8) {
        Err(ConversionError::BufferTooSmall { needed, got }) => {
            assert_eq!(needed, 24);
            assert_eq!(got, 20);
        },
        _ => panic!("expected a buffer size rejection"),
    }
    assert!(validate(&[0u8; 24], PixelFormat::Nv12, 1, 7, 5, 8).is_ok());
    // A stride below the tight row size is reported against the tight row.
    match validate(&[0u8; 100], PixelFormat::Nv12, 1, 7, 5, 7) {
        Err(ConversionError::BufferTooSmall { needed, got }) => {
            assert_eq!(needed, 24);
            assert_eq!(got, 100);
        },
        _ => panic!("expected a stride rejection"),
    }
}

#[test]
fn descriptor_table_entries() {
    let d = descriptor(PixelFormat::Nv12);
    assert_eq!(
        (d.plane_count, d.subsample_x, d.subsample_y, d.bytes_per_group, d.group_width),
        (2, 2, 2, 1, 1)
    );
    let d = descriptor(PixelFormat::I420);
    assert_eq!((d.plane_count, d.subsample_x, d.subsample_y), (3, 2, 2));
    let d = descriptor(PixelFormat::Yuyv);
    assert_eq!((d.plane_count, d.bytes_per_group, d.group_width), (1, 4, 2));
    let d = descriptor(PixelFormat::Rgba32);
    assert_eq!((d.plane_count, d.bytes_per_group), (1, 4));
    assert_eq!(descriptor(PixelFormat::Unknown).plane_count, 0);
}

#[test]
fn odd_dimensions_convert() {
    // 3x3 NV12: chroma plane is 2 rows of 2 pairs.
    let y = vec![128u8; 9];
    let uv = vec![128u8; 8];
    let rgb = Convert::nv12_to_rgb24(&y, 3, &uv, 4, 3, 3).unwrap();
    assert_eq!(rgb.len(), 27);
    assert!(rgb.iter().all(|&b| b == 128));
}

#[test]
fn zero_sized_frames_convert_to_empty() {
    let rgb = Convert::rgb_to_bgr(&[], 0, 0, 0).unwrap();
    assert!(rgb.is_empty());
    // A zero-height frame still declares a stride that covers one row.
    let rgb = Convert::yuyv_to_rgb24(&[], 8, 4, 0).unwrap();
    assert!(rgb.is_empty());
}

#[test]
fn flags_default_convention() {
    let flags = ConversionFlags::default();
    assert!(!flags.bt709);
    assert!(!flags.bottom_to_top);
}

#[test]
fn gray_is_neutral_under_both_matrices() {
    let src = vec![128u8; 8];
    let rgb = convert(
        PixelFormat::Yuyv,
        PixelFormat::Rgb24,
        &src,
        None,
        None,
        8,
        0,
        0,
        4,
        1,
        ConversionFlags { bt709: true, bottom_to_top: false },
    )
    .unwrap();
    assert!(rgb.iter().all(|&b| b == 128));
}

#[test]
fn video_frame_accessors() {
    let data: Vec<u8> = vec![1, 2, 3, 4, 5, 6];
    let frame = VideoFrame::new(
        1,
        2,
        PixelFormat::Rgb24,
        FrameOrientation::TopToBottom,
        77,
        9,
        [3, 0, 0],
        data.clone(),
    );
    assert_eq!(frame.width(), 1);
    assert_eq!(frame.height(), 2);
    assert_eq!(frame.pixel_format(), PixelFormat::Rgb24);
    assert_eq!(frame.data_size(), 6);
    assert_eq!(frame.index(), 9);
    assert_eq!(frame.data().unwrap(), &data[..]);
    let info = frame.info().unwrap();
    assert_eq!(info.width, 1);
    assert_eq!(info.height, 2);
    assert_eq!(info.size_in_bytes, 6);
    assert_eq!(info.timestamp, 77);
    assert_eq!(info.frame_index, 9);
    assert_eq!(info.orientation, FrameOrientation::TopToBottom);
    assert_eq!(info.strides, [3, 0, 0]);
}
