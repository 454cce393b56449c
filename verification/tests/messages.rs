use cutlass::decoder::HwDecodeOutcome;
use cutlass::error::DecoderError;
use cutlass::hw_textures::{extract_nv12_textures, PixelBuffer};
use cutlass::hwaccel::{ActiveHwAccel, FallbackReason, HwAccel};
use cutlass::media::{CodecId, FfmpegError, FfmpegErrorKind, TextureFormat};

#[test]
fn ffmpeg_message() {
    let err = DecoderError::Ffmpeg(FfmpegError {
        kind: FfmpegErrorKind::Tagged { code: -1094995529 },
        text: String::from("Invalid data found when processing input"),
    });
    assert_eq!(
        err.message(),
        "ffmpeg error: Invalid data found when processing input"
    );
}

#[test]
fn no_stream_message() {
    assert_eq!(
        DecoderError::NoVideoStream.message(),
        "no video stream found in input"
    );
}

#[test]
fn texture_format_messages() {
    let message = |format: TextureFormat| DecoderError::UnsupportedTextureFormat { format }.message();
    assert_eq!(
        message(TextureFormat::Other { name: String::from("Bgra8Unorm") }),
        "target wgpu texture has unsupported format Bgra8Unorm; expected Rgba8Unorm or Rgba8UnormSrgb"
    );
    assert_eq!(
        message(TextureFormat::R8Unorm),
        "target wgpu texture has unsupported format R8Unorm; expected Rgba8Unorm or Rgba8UnormSrgb"
    );
    assert_eq!(
        message(TextureFormat::Rg8Unorm),
        "target wgpu texture has unsupported format Rg8Unorm; expected Rgba8Unorm or Rgba8UnormSrgb"
    );
}

#[test]
fn unsupported_hwaccel_messages() {
    let message = |requested: HwAccel| {
        DecoderError::HwAccelUnsupported {
            requested,
            codec: CodecId { name: String::from("VP9") },
        }
        .message()
    };
    assert_eq!(
        message(HwAccel::VideoToolbox),
        "requested hwaccel VideoToolbox is not supported by codec VP9"
    );
    assert_eq!(
        message(HwAccel::Auto),
        "requested hwaccel Auto is not supported by codec VP9"
    );
    assert_eq!(
        message(HwAccel::Software),
        "requested hwaccel None is not supported by codec VP9"
    );
}

#[test]
fn averror_messages() {
    assert_eq!(
        DecoderError::HwDeviceInit(-12).message(),
        "hwaccel device init failed (averror -12)"
    );
    assert_eq!(
        DecoderError::HwDeviceInit(0).message(),
        "hwaccel device init failed (averror 0)"
    );
    assert_eq!(
        DecoderError::HwTransfer(i32::MIN).message(),
        format!("hwaccel frame transfer failed (averror {})", i32::MIN)
    );
}

#[test]
fn inactive_hwaccel_messages() {
    assert_eq!(
        DecoderError::HwAccelNotActive(ActiveHwAccel::Software).message(),
        "decode_next_hw called without VideoToolbox hwaccel active (current = None)"
    );
    assert_eq!(
        DecoderError::HwAccelNotActive(ActiveHwAccel::VideoToolbox).message(),
        "decode_next_hw called without VideoToolbox hwaccel active (current = VideoToolbox)"
    );
}

#[test]
fn hardware_frame_messages() {
    assert_eq!(
        DecoderError::HwFrameMissingPixelBuffer.message(),
        "hardware frame did not carry a CVPixelBuffer in data[3]"
    );
    assert_eq!(
        DecoderError::HwFrameMissingIoSurface.message(),
        "hardware frame's CVPixelBuffer has no backing IOSurface"
    );
    assert_eq!(
        DecoderError::HwFrameUnsupportedPixelFormat { pixel_format: 0x42475241, plane_count: 0 }
            .message(),
        "hardware frame pixel format 0x42475241 has 0 planes; need 2 (NV12)"
    );
    assert_eq!(
        DecoderError::HwFrameUnsupportedPixelFormat { pixel_format: 0x20, plane_count: 1 }.message(),
        format!("hardware frame pixel format {:#010x} has 1 planes; need 2 (NV12)", 0x20)
    );
    assert_eq!(
        DecoderError::MtlTextureFromIosurfaceFailed { plane: 1 }.message(),
        "MTLDevice.newTextureWithDescriptor:iosurface:plane: returned nil for plane 1"
    );
    assert_eq!(
        DecoderError::NotMetalDevice.message(),
        "wgpu device is not running on the Metal backend; cannot wrap IOSurface textures"
    );
}

#[test]
fn frame_debug_text() {
    let layout = extract_nv12_textures(
        Some(PixelBuffer {
            width: 3840,
            height: 2160,
            plane_count: 2,
            pixel_format: 0x34323076,
            has_iosurface: true,
        }),
        true,
    )
    .unwrap();
    let frame = layout.assemble(true, true).unwrap();
    assert_eq!(
        frame.debug_text(),
        "HwFrameTextures { width: 3840, height: 2160, pixel_format: 0x34323076 }"
    );
    assert_eq!(format!("{:?}", frame), frame.debug_text());
    assert_eq!(
        format!("{:#?}", frame),
        "HwFrameTextures {\n    width: 3840,\n    height: 2160,\n    pixel_format: 0x34323076,\n}"
    );
    assert_eq!(format!("{:#?}", frame), frame.debug_lines());
    assert_eq!(
        format!("{:?}", HwDecodeOutcome::Frame { textures: frame.clone(), pts: Some(4) }),
        format!("Frame {{ textures: {}, pts: Some(4) }}", frame.debug_text())
    );
    assert_eq!(
        format!("{:#?}", Some(frame)),
        "Some(\n    HwFrameTextures {\n        width: 3840,\n        height: 2160,\n        \
         pixel_format: 0x34323076,\n    },\n)"
    );
}

#[test]
fn backend_debug_names() {
    assert_eq!(format!("{:?}", HwAccel::Software), "None");
    assert_eq!(format!("{:?}", HwAccel::Auto), "Auto");
    assert_eq!(format!("{:?}", HwAccel::VideoToolbox), "VideoToolbox");
    assert_eq!(format!("{:#?}", ActiveHwAccel::Software), "None");
    assert_eq!(format!("{:?}", ActiveHwAccel::VideoToolbox), "VideoToolbox");
    assert_eq!(
        format!("{:?}", DecoderError::HwAccelNotActive(ActiveHwAccel::Software)),
        "HwAccelNotActive(None)"
    );
}

#[test]
fn fallback_reasons() {
    assert_eq!(FallbackReason::NoDecoder.message(), "no decoder found for stream");
    assert_eq!(
        FallbackReason::NotAdvertised.message(),
        "codec does not advertise the requested hwaccel device"
    );
    assert_eq!(
        FallbackReason::DeviceInit(-12).message(),
        "av_hwdevice_ctx_create failed: hwaccel device init failed (averror -12)"
    );
}

#[test]
fn ffmpeg_errors_convert() {
    let err = FfmpegError { kind: FfmpegErrorKind::Eof, text: String::from("End of file") };
    assert_eq!(DecoderError::from(err.clone()), DecoderError::Ffmpeg(err));
}

#[test]
fn numbers_read_as_the_formatter_writes_them() {
    for n in [0usize, 1, 9, 10, 11, 99, 100, 12345, usize::MAX] {
        assert_eq!(
            DecoderError::MtlTextureFromIosurfaceFailed { plane: n }.message(),
            format!(
                "MTLDevice.newTextureWithDescriptor:iosurface:plane: returned nil for plane {}",
                n
            )
        );
    }
    for code in [0u32, 1, 0xf, 0x10, 0xabcdef01, u32::MAX] {
        assert_eq!(
            DecoderError::HwFrameUnsupportedPixelFormat { pixel_format: code, plane_count: 1 }
                .message(),
            format!("hardware frame pixel format {:#010x} has 1 planes; need 2 (NV12)", code)
        );
    }
    for code in [-1, 7, i32::MAX, i32::MIN] {
        assert_eq!(
            DecoderError::HwDeviceInit(code).message(),
            format!("hwaccel device init failed (averror {})", code)
        );
    }
}
