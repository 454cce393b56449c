//! Plain descriptions of what FFmpeg and the GPU report: formats, rationals,
//! errors and the host that the player was built for.

use vstd::prelude::*;

verus! {

/// What the build target contributes to the decisions of the decoder.
#[derive(Debug, Clone, Copy, PartialEq, Eq, Structural)]
pub struct Host {
    /// Whether the target is macOS or iOS.
    pub apple: bool,
    /// The target's `EAGAIN`.
    pub eagain: i32,
}

/// A rational number as FFmpeg reports it, not reduced.
#[derive(Debug, Clone, Copy, PartialEq, Eq, Structural)]
pub struct Rational {
    pub numerator: i32,
    pub denominator: i32,
}

/// The pixel format of a decoded frame.
#[derive(Debug, Clone, Copy, PartialEq, Eq, Structural)]
pub enum PixelFormat {
    /// A VideoToolbox surface: the pixels are not in CPU memory.
    VideoToolbox,
    /// Packed RGBA, eight bits a channel.
    Rgba,
    /// Any other format, by its FFmpeg code.
    Other { code: i32 },
}

/// The format of a GPU texture.
#[derive(Debug, Clone, PartialEq, Eq)]
pub enum TextureFormat {
    Rgba8Unorm,
    Rgba8UnormSrgb,
    R8Unorm,
    Rg8Unorm,
    /// Any other format, by its name.
    Other { name: String },
}

/// What an FFmpeg call failed with.
#[derive(Debug, Clone, Copy, PartialEq, Eq, Structural)]
pub enum FfmpegErrorKind {
    /// The end of the stream.
    Eof,
    /// A POSIX error code.
    Errno { errno: i32 },
    /// Any other error, by its FFmpeg code.
    Tagged { code: i32 },
}

/// An error of FFmpeg, with FFmpeg's own description of it.
#[derive(Debug, Clone, PartialEq, Eq)]
pub struct FfmpegError {
    pub kind: FfmpegErrorKind,
    pub text: String,
}

impl FfmpegError {
    /// Whether the call could not proceed before it is given more input.
    pub open spec fn again(self, host: Host) -> bool {
        self.kind == FfmpegErrorKind::Errno { errno: host.eagain }
    }

    /// Whether the call reported the end of the stream.
    pub open spec fn end(self) -> bool {
        self.kind == FfmpegErrorKind::Eof
    }

    /// Whether the error asks for more input.
    pub fn is_again(&self, host: Host) -> (r: bool)
        ensures
            r == self.again(host),
    {
        match self.kind {
            FfmpegErrorKind::Errno { errno } => errno == host.eagain,
            _ => false,
        }
    }

    /// Whether the error is the end of the stream.
    pub fn is_end(&self) -> (r: bool)
        ensures
            r == self.end(),
    {
        match self.kind {
            FfmpegErrorKind::Eof => true,
            _ => false,
        }
    }
}

/// The codec of a stream, by its name.
#[derive(Debug, Clone, PartialEq, Eq)]
pub struct CodecId {
    pub name: String,
}

/// A call asks for more input exactly where it failed with the host's `EAGAIN`,
/// and reports the end exactly where it failed with the end of the stream,
/// whatever FFmpeg says of the error. No error is both.
pub proof fn law_again_and_end(err: FfmpegError, host: Host)
    ensures
        err.again(host) <==> (err.kind matches FfmpegErrorKind::Errno { errno } && errno
            == host.eagain),
        err.end() <==> err.kind is Eof,
        !(err.again(host) && err.end()),
{
}

} // verus!
