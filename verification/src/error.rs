//! Errors of the decoder.

use crate::hwaccel::{ActiveHwAccel, HwAccel};
use crate::media::{CodecId, FfmpegError, TextureFormat};
use crate::text::{push_decimal, push_hex_code, push_signed};
use vstd::prelude::*;
use vstd::std_specs::convert::FromSpec;
use vstd::string::*;

verus! {

/// All errors that can come out of a decoder.
#[derive(Debug, PartialEq, Eq)]
pub enum DecoderError {
    /// A call into FFmpeg failed.
    Ffmpeg(FfmpegError),
    /// The input has no video stream.
    NoVideoStream,
    /// The target texture's format is neither `Rgba8Unorm` nor `Rgba8UnormSrgb`.
    UnsupportedTextureFormat { format: TextureFormat },
    /// The codec cannot decode on the requested hardware.
    HwAccelUnsupported { requested: HwAccel, codec: CodecId },
    /// The hardware device could not be created.
    HwDeviceInit(i32),
    /// A frame could not be copied from the hardware.
    HwTransfer(i32),
    /// A hardware frame was asked for, but none can be had.
    HwAccelNotActive(ActiveHwAccel),
    /// A hardware frame carries no pixel buffer.
    HwFrameMissingPixelBuffer,
    /// The pixel buffer of a hardware frame has no surface behind it.
    HwFrameMissingIoSurface,
    /// The pixel buffer of a hardware frame has fewer than two planes.
    HwFrameUnsupportedPixelFormat { pixel_format: u32, plane_count: usize },
    /// No texture could be made from a plane of the surface.
    MtlTextureFromIosurfaceFailed { plane: usize },
    /// The GPU device does not run on Metal.
    NotMetalDevice,
}

/// The name of a texture format.
pub open spec fn format_name(format: TextureFormat) -> Seq<char> {
    match format {
        TextureFormat::Rgba8Unorm => "Rgba8Unorm"@,
        TextureFormat::Rgba8UnormSrgb => "Rgba8UnormSrgb"@,
        TextureFormat::R8Unorm => "R8Unorm"@,
        TextureFormat::Rg8Unorm => "Rg8Unorm"@,
        TextureFormat::Other { name } => name@,
    }
}

/// The name of a requested backend.
pub open spec fn hwaccel_name(requested: HwAccel) -> Seq<char> {
    match requested {
        HwAccel::Software => "None"@,
        HwAccel::Auto => "Auto"@,
        HwAccel::VideoToolbox => "VideoToolbox"@,
    }
}

/// The name of a negotiated backend.
pub open spec fn active_name(active: ActiveHwAccel) -> Seq<char> {
    match active {
        ActiveHwAccel::Software => "None"@,
        ActiveHwAccel::VideoToolbox => "VideoToolbox"@,
    }
}

fn format_text(format: &TextureFormat) -> (r: &str)
    ensures
        r@ == format_name(*format),
{
    match format {
        TextureFormat::Rgba8Unorm => "Rgba8Unorm",
        TextureFormat::Rgba8UnormSrgb => "Rgba8UnormSrgb",
        TextureFormat::R8Unorm => "R8Unorm",
        TextureFormat::Rg8Unorm => "Rg8Unorm",
        TextureFormat::Other { name } => name.as_str(),
    }
}

/// The name of a requested backend, as messages spell it.
pub(crate) fn hwaccel_text(requested: HwAccel) -> (r: &'static str)
    ensures
        r@ == hwaccel_name(requested),
{
    match requested {
        HwAccel::Software => "None",
        HwAccel::Auto => "Auto",
        HwAccel::VideoToolbox => "VideoToolbox",
    }
}

/// The name of a negotiated backend, as messages spell it.
pub(crate) fn active_text(active: ActiveHwAccel) -> (r: &'static str)
    ensures
        r@ == active_name(active),
{
    match active {
        ActiveHwAccel::Software => "None",
        ActiveHwAccel::VideoToolbox => "VideoToolbox",
    }
}

impl From<FfmpegError> for DecoderError {
    fn from(err: FfmpegError) -> (r: DecoderError) {
        DecoderError::Ffmpeg(err)
    }
}

impl vstd::std_specs::convert::FromSpecImpl<FfmpegError> for DecoderError {
    open spec fn obeys_from_spec() -> bool {
        true
    }

    open spec fn from_spec(err: FfmpegError) -> DecoderError {
        DecoderError::Ffmpeg(err)
    }
}

impl DecoderError {
    /// What the error says to the user.
    pub open spec fn spec_message(self) -> Seq<char> {
        match self {
            DecoderError::Ffmpeg(err) => "ffmpeg error: "@ + err.text@,
            DecoderError::NoVideoStream => "no video stream found in input"@,
            DecoderError::UnsupportedTextureFormat { format } =>
                "target wgpu texture has unsupported format "@ + format_name(format)
                    + "; expected Rgba8Unorm or Rgba8UnormSrgb"@,
            DecoderError::HwAccelUnsupported { requested, codec } => "requested hwaccel "@
                + hwaccel_name(requested) + " is not supported by codec "@ + codec.name@,
            DecoderError::HwDeviceInit(code) => "hwaccel device init failed (averror "@
                + crate::text::signed_decimal(code as int) + ")"@,
            DecoderError::HwTransfer(code) => "hwaccel frame transfer failed (averror "@
                + crate::text::signed_decimal(code as int) + ")"@,
            DecoderError::HwAccelNotActive(active) =>
                "decode_next_hw called without VideoToolbox hwaccel active (current = "@
                    + active_name(active) + ")"@,
            DecoderError::HwFrameMissingPixelBuffer =>
                "hardware frame did not carry a CVPixelBuffer in data[3]"@,
            DecoderError::HwFrameMissingIoSurface =>
                "hardware frame's CVPixelBuffer has no backing IOSurface"@,
            DecoderError::HwFrameUnsupportedPixelFormat { pixel_format, plane_count } =>
                "hardware frame pixel format "@ + crate::text::hex_code(pixel_format) + " has "@
                    + crate::text::decimal(plane_count as nat) + " planes; need 2 (NV12)"@,
            DecoderError::MtlTextureFromIosurfaceFailed { plane } =>
                "MTLDevice.newTextureWithDescriptor:iosurface:plane: returned nil for plane "@
                    + crate::text::decimal(plane as nat),
            DecoderError::NotMetalDevice =>
                "wgpu device is not running on the Metal backend; cannot wrap IOSurface textures"@,
        }
    }

    /// The message of the error.
    pub fn message(&self) -> (r: String)
        ensures
            r@ == self.spec_message(),
    {
        let mut out = String::new();
        match self {
            DecoderError::Ffmpeg(err) => {
                out.append("ffmpeg error: ");
                out.append(err.text.as_str());
            },
            DecoderError::NoVideoStream => {
                out.append("no video stream found in input");
            },
            DecoderError::UnsupportedTextureFormat { format } => {
                out.append("target wgpu texture has unsupported format ");
                out.append(format_text(format));
                out.append("; expected Rgba8Unorm or Rgba8UnormSrgb");
            },
            DecoderError::HwAccelUnsupported { requested, codec } => {
                out.append("requested hwaccel ");
                out.append(hwaccel_text(*requested));
                out.append(" is not supported by codec ");
                out.append(codec.name.as_str());
            },
            DecoderError::HwDeviceInit(code) => {
                out.append("hwaccel device init failed (averror ");
                push_signed(&mut out, *code);
                out.append(")");
            },
            DecoderError::HwTransfer(code) => {
                out.append("hwaccel frame transfer failed (averror ");
                push_signed(&mut out, *code);
                out.append(")");
            },
            DecoderError::HwAccelNotActive(active) => {
                out.append("decode_next_hw called without VideoToolbox hwaccel active (current = ");
                out.append(active_text(*active));
                out.append(")");
            },
            DecoderError::HwFrameMissingPixelBuffer => {
                out.append("hardware frame did not carry a CVPixelBuffer in data[3]");
            },
            DecoderError::HwFrameMissingIoSurface => {
                out.append("hardware frame's CVPixelBuffer has no backing IOSurface");
            },
            DecoderError::HwFrameUnsupportedPixelFormat { pixel_format, plane_count } => {
                out.append("hardware frame pixel format ");
                push_hex_code(&mut out, *pixel_format);
                out.append(" has ");
                push_decimal(&mut out, *plane_count as u64);
                out.append(" planes; need 2 (NV12)");
            },
            DecoderError::MtlTextureFromIosurfaceFailed { plane } => {
                out.append(
                    "MTLDevice.newTextureWithDescriptor:iosurface:plane: returned nil for plane ",
                );
                push_decimal(&mut out, *plane as u64);
            },
            DecoderError::NotMetalDevice => {
                out.append(
                    "wgpu device is not running on the Metal backend; cannot wrap IOSurface textures",
                );
            },
        }
        assert(out@ =~= self.spec_message());
        out
    }
}

/// What each error says. Whatever varies in a message is the number, name or
/// text that the error carries.
pub proof fn law_messages(error: DecoderError)
    ensures
        error.spec_message() == (match error {
            DecoderError::Ffmpeg(err) => "ffmpeg error: "@ + err.text@,
            DecoderError::NoVideoStream => "no video stream found in input"@,
            DecoderError::UnsupportedTextureFormat { format } =>
                "target wgpu texture has unsupported format "@ + (match format {
                    TextureFormat::Rgba8Unorm => "Rgba8Unorm"@,
                    TextureFormat::Rgba8UnormSrgb => "Rgba8UnormSrgb"@,
                    TextureFormat::R8Unorm => "R8Unorm"@,
                    TextureFormat::Rg8Unorm => "Rg8Unorm"@,
                    TextureFormat::Other { name } => name@,
                }) + "; expected Rgba8Unorm or Rgba8UnormSrgb"@,
            DecoderError::HwAccelUnsupported { requested, codec } => "requested hwaccel "@ + (
            match requested {
                HwAccel::Software => "None"@,
                HwAccel::Auto => "Auto"@,
                HwAccel::VideoToolbox => "VideoToolbox"@,
            }) + " is not supported by codec "@ + codec.name@,
            DecoderError::HwDeviceInit(code) => "hwaccel device init failed (averror "@
                + crate::text::signed_decimal(code as int) + ")"@,
            DecoderError::HwTransfer(code) => "hwaccel frame transfer failed (averror "@
                + crate::text::signed_decimal(code as int) + ")"@,
            DecoderError::HwAccelNotActive(active) =>
                "decode_next_hw called without VideoToolbox hwaccel active (current = "@ + (
                match active {
                    ActiveHwAccel::Software => "None"@,
                    ActiveHwAccel::VideoToolbox => "VideoToolbox"@,
                }) + ")"@,
            DecoderError::HwFrameMissingPixelBuffer =>
                "hardware frame did not carry a CVPixelBuffer in data[3]"@,
            DecoderError::HwFrameMissingIoSurface =>
                "hardware frame's CVPixelBuffer has no backing IOSurface"@,
            DecoderError::HwFrameUnsupportedPixelFormat { pixel_format, plane_count } =>
                "hardware frame pixel format "@ + crate::text::hex_code(pixel_format) + " has "@
                    + crate::text::decimal(plane_count as nat) + " planes; need 2 (NV12)"@,
            DecoderError::MtlTextureFromIosurfaceFailed { plane } =>
                "MTLDevice.newTextureWithDescriptor:iosurface:plane: returned nil for plane "@
                    + crate::text::decimal(plane as nat),
            DecoderError::NotMetalDevice =>
                "wgpu device is not running on the Metal backend; cannot wrap IOSurface textures"@,
        }),
{
}

/// An error of FFmpeg becomes the decoder's error that carries it.
pub proof fn law_ffmpeg_errors_are_carried(err: FfmpegError)
    ensures
        DecoderError::from_spec(err) == DecoderError::Ffmpeg(err),
{
}

} // verus!
