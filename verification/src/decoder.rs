//! A pull-style video decoder that decodes one frame per call.
//!
//! The demuxer, the codec, the scaler and the GPU live outside the library.
//! [`VideoDecoder`] decides what is done with them: a call is started with
//! [`VideoDecoder::decode_next`] or [`VideoDecoder::decode_next_hw`], which ask
//! for a first piece of work, and is carried on with [`VideoDecoder::resume`],
//! which takes what that work came to and asks for the next, until the call
//! ends with an outcome or an error.

use crate::error::DecoderError;
use crate::hw_textures::HwFrameTextures;
use crate::hwaccel::ActiveHwAccel;
use crate::media::{FfmpegError, Host, PixelFormat, Rational, TextureFormat};
use crate::upload::{
    packed_row, rgba_upload, rows_fit, scratch_after, upload_rgba, TextureUpload,
};
use vstd::prelude::*;

verus! {

/// Texture format the decoder writes.
pub const TEXTURE_FORMAT: TextureFormat = TextureFormat::Rgba8Unorm;

/// Static metadata about the opened video stream.
#[derive(Debug, Clone, Copy, PartialEq, Eq, Structural)]
pub struct VideoInfo {
    pub width: u32,
    pub height: u32,
    pub time_base: Rational,
    pub frame_rate: Option<Rational>,
    pub hwaccel: ActiveHwAccel,
}

/// Result of [`VideoDecoder::decode_next`].
#[derive(Debug, Clone, Copy, PartialEq, Eq, Structural)]
pub enum DecodeOutcome {
    /// A new frame was decoded and uploaded to the target texture.
    Frame {
        /// Presentation timestamp in `VideoInfo::time_base` units, if available.
        pts: Option<i64>,
    },
    /// The input stream has been fully drained.
    Eof,
}

/// Result of [`VideoDecoder::decode_next_hw`].
#[derive(Debug, Clone, PartialEq, Eq)]
pub enum HwDecodeOutcome {
    /// A new frame was decoded on the hardware.
    Frame {
        textures: HwFrameTextures,
        /// Presentation timestamp in `VideoInfo::time_base` units, if available.
        pts: Option<i64>,
    },
    /// The input stream has been fully drained.
    Eof,
}

/// What a decoded frame says of itself.
#[derive(Debug, Clone, Copy, PartialEq, Eq, Structural)]
pub struct FrameInfo {
    pub format: PixelFormat,
    pub width: u32,
    pub height: u32,
    pub pts: Option<i64>,
}

/// The texture that frames are uploaded to.
#[derive(Debug, Clone, PartialEq, Eq)]
pub struct TargetTexture {
    pub format: TextureFormat,
    pub width: u32,
    pub height: u32,
}

/// How a scaler interpolates.
#[derive(Debug, Clone, Copy, PartialEq, Eq, Structural)]
pub enum ScaleFilter {
    Bilinear,
}

/// The conversion that a scaler was built for.
#[derive(Debug, Clone, Copy, PartialEq, Eq, Structural)]
pub struct ScalerConfig {
    pub src_format: PixelFormat,
    pub src_width: u32,
    pub src_height: u32,
    pub dst_format: PixelFormat,
    pub dst_width: u32,
    pub dst_height: u32,
    pub filter: ScaleFilter,
}

/// Which frame a scaler reads.
#[derive(Debug, Clone, Copy, PartialEq, Eq, Structural)]
pub enum FrameSource {
    /// The frame as the codec returned it.
    Decoded,
    /// The copy of a hardware frame in CPU memory.
    Transferred,
}

/// Which of the two decode calls is under way.
#[derive(Debug, Clone, Copy, PartialEq, Eq, Structural)]
pub enum Call {
    /// [`VideoDecoder::decode_next`].
    Software,
    /// [`VideoDecoder::decode_next_hw`].
    Hardware,
}

/// A piece of work that a call asks for.
#[derive(Debug, Clone, Copy, PartialEq, Eq, Structural)]
pub enum Request {
    /// Receive a frame from the codec.
    ReceiveFrame,
    /// Read the next packet of the input.
    ReadPacket,
    /// Send the packet that was read last to the codec.
    SendPacket,
    /// Tell the codec that no more packets come.
    SendEof,
    /// Copy the frame that was received last from the hardware into a fresh
    /// frame, and give that the timestamp of the received one.
    TransferFrame,
    /// Build a scaler, and empty the RGBA frame once it is built.
    BuildScaler(ScalerConfig),
    /// Run the scaler on a frame, into the RGBA frame.
    RunScaler(FrameSource),
    /// Upload the RGBA frame, as [`VideoDecoder::prepare_upload`] says.
    Upload,
    /// Make textures of the planes of the frame that was received last.
    ExtractTextures,
}

/// What a piece of work came to.
#[derive(Debug, PartialEq, Eq)]
pub enum Reply {
    /// To [`Request::ReceiveFrame`].
    Received(Result<FrameInfo, FfmpegError>),
    /// To [`Request::ReadPacket`]: the stream that the packet belongs to.
    PacketRead(Result<usize, FfmpegError>),
    /// To [`Request::SendPacket`].
    PacketSent(Result<(), FfmpegError>),
    /// To [`Request::SendEof`].
    EofSent(Result<(), FfmpegError>),
    /// To [`Request::TransferFrame`]: what FFmpeg returned, and what the copy
    /// says of itself.
    Transferred { status: i32, copy: FrameInfo },
    /// To [`Request::BuildScaler`].
    ScalerBuilt(Result<(), FfmpegError>),
    /// To [`Request::RunScaler`].
    Scaled(Result<(), FfmpegError>),
    /// To [`Request::Upload`].
    Uploaded,
    /// To [`Request::ExtractTextures`].
    Extracted(Result<HwFrameTextures, DecoderError>),
}

/// How far a call has come.
#[derive(Debug, Clone, PartialEq, Eq)]
pub enum Progress {
    /// The call asks for a piece of work.
    Ask(Request),
    /// [`VideoDecoder::decode_next`] has ended.
    Decoded(DecodeOutcome),
    /// [`VideoDecoder::decode_next_hw`] has ended.
    DecodedHw(HwDecodeOutcome),
}

/// The work that a decoder waits for.
#[derive(Debug, Clone, Copy, PartialEq, Eq, Structural)]
pub enum Phase {
    /// No call is under way.
    Idle,
    Receiving { call: Call },
    Reading { call: Call },
    SendingPacket { call: Call },
    SendingEof { call: Call },
    Transferring { pts: Option<i64> },
    BuildingScaler { pts: Option<i64>, source: FrameSource, config: ScalerConfig },
    Scaling { pts: Option<i64>, config: ScalerConfig },
    Uploading { pts: Option<i64> },
    Extracting { pts: Option<i64> },
}

/// The state of a decoder.
pub struct DecoderModel {
    pub host: Host,
    /// The stream whose packets are decoded.
    pub stream_index: usize,
    pub active_hwaccel: ActiveHwAccel,
    /// What the scaler at hand was built for, where there is one.
    pub sws: Option<ScalerConfig>,
    /// The size of the buffer that the RGBA frame may hold. It holds none
    /// where this is `None`.
    pub rgba_size: Option<(u32, u32)>,
    pub src_width: u32,
    pub src_height: u32,
    pub dst_width: u32,
    pub dst_height: u32,
    pub time_base: Rational,
    pub frame_rate: Option<Rational>,
    /// The codec was told that no more packets come.
    pub flushed: bool,
    /// The codec has handed out its last frame.
    pub drained: bool,
    pub upload_scratch: Seq<u8>,
    pub phase: Phase,
}

/// What a step of a call leads to: the decoder's next state, and how far the
/// call has come.
pub type Step = (DecoderModel, Result<Progress, DecoderError>);

/// Whether frames can be uploaded to a texture of this format.
pub open spec fn target_supported(format: TextureFormat) -> bool {
    format == TextureFormat::Rgba8Unorm || format == TextureFormat::Rgba8UnormSrgb
}

/// Check that frames can be uploaded to a texture of this format.
pub fn validate_target(format: TextureFormat) -> (r: Result<(), DecoderError>)
    ensures
        target_supported(format) ==> r == Ok::<(), DecoderError>(()),
        !target_supported(format) ==> r == Err::<(), DecoderError>(
            DecoderError::UnsupportedTextureFormat { format },
        ),
{
    match format {
        TextureFormat::Rgba8Unorm | TextureFormat::Rgba8UnormSrgb => Ok(()),
        other => Err(DecoderError::UnsupportedTextureFormat { format: other }),
    }
}

/// Whether a phase waits for such a reply.
pub open spec fn phase_expects(phase: Phase, reply: Reply) -> bool {
    match reply {
        Reply::Received(_) => phase is Receiving,
        Reply::PacketRead(_) => phase is Reading,
        Reply::PacketSent(_) => phase is SendingPacket,
        Reply::EofSent(_) => phase is SendingEof,
        Reply::Transferred { .. } => phase is Transferring,
        Reply::ScalerBuilt(_) => phase is BuildingScaler,
        Reply::Scaled(_) => phase is Scaling,
        Reply::Uploaded => phase is Uploading,
        Reply::Extracted(_) => phase is Extracting,
    }
}

/// The outcome of a call that finds the stream drained.
pub open spec fn eof_of(call: Call) -> Progress {
    match call {
        Call::Software => Progress::Decoded(DecodeOutcome::Eof),
        Call::Hardware => Progress::DecodedHw(HwDecodeOutcome::Eof),
    }
}

impl DecoderModel {
    /// What holds of a decoder at all times: the scaler at hand writes frames
    /// of the target's size, and so does the RGBA frame hold one, if any; no
    /// packet is handled once the codec was flushed or is drained; and hardware
    /// frames are handled only where VideoToolbox was negotiated.
    pub open spec fn valid(self) -> bool {
        &&& self.sws matches Some(config) ==> self.writes_target(config)
        &&& self.rgba_size matches Some(size) ==> self.sws is Some && size == (
            self.dst_width,
            self.dst_height,
        )
        &&& self.phase_valid()
    }

    /// Whether a scaler of this configuration writes RGBA frames of the
    /// target's size.
    pub open spec fn writes_target(self, config: ScalerConfig) -> bool {
        &&& config.dst_format == PixelFormat::Rgba
        &&& config.dst_width == self.dst_width
        &&& config.dst_height == self.dst_height
    }

    /// What the work that a decoder waits for relies on.
    pub open spec fn phase_valid(self) -> bool {
        let hardware = self.active_hwaccel == ActiveHwAccel::VideoToolbox;
        match self.phase {
            Phase::Idle => true,
            Phase::Receiving { call } => call == Call::Hardware ==> hardware,
            Phase::Reading { call } | Phase::SendingPacket { call } | Phase::SendingEof { call } => {
                &&& call == Call::Hardware ==> hardware
                &&& !self.flushed
                &&& !self.drained
            },
            Phase::Transferring { .. } => hardware,
            Phase::BuildingScaler { config, .. } => self.writes_target(config),
            Phase::Scaling { config, .. } => self.sws == Some(config),
            Phase::Uploading { .. } => self.rgba_size == Some((self.dst_width, self.dst_height)),
            Phase::Extracting { .. } => hardware,
        }
    }

    /// Metadata of the stream, with the size that frames are scaled to.
    pub open spec fn info(self) -> VideoInfo {
        VideoInfo {
            width: self.dst_width,
            height: self.dst_height,
            time_base: self.time_base,
            frame_rate: self.frame_rate,
            hwaccel: self.active_hwaccel,
        }
    }

    /// The call goes on: it waits in `phase` for what it asked for.
    pub open spec fn ask(self, phase: Phase, request: Request) -> Step {
        (DecoderModel { phase, ..self }, Ok(Progress::Ask(request)))
    }

    /// The call ends with an outcome.
    pub open spec fn finish(self, progress: Progress) -> Step {
        (DecoderModel { phase: Phase::Idle, ..self }, Ok(progress))
    }

    /// The call ends with an error.
    pub open spec fn fail(self, error: DecoderError) -> Step {
        (DecoderModel { phase: Phase::Idle, ..self }, Err(error))
    }

    /// The decoder once it is set to frames of the given size. A change of size
    /// drops the scaler and empties the RGBA frame.
    pub open spec fn resized(self, width: u32, height: u32) -> DecoderModel {
        if width != self.dst_width || height != self.dst_height {
            DecoderModel {
                dst_width: width,
                dst_height: height,
                sws: None,
                rgba_size: None,
                ..self
            }
        } else {
            self
        }
    }

    /// Start of a call that uploads to `target`.
    pub open spec fn begin(self, target: TargetTexture) -> Step {
        if target_supported(target.format) {
            self.resized(target.width, target.height).receive(Call::Software)
        } else {
            (self, Err(DecoderError::UnsupportedTextureFormat { format: target.format }))
        }
    }

    /// Start of a call that returns hardware textures.
    pub open spec fn begin_hw(self) -> Step {
        if self.active_hwaccel == ActiveHwAccel::VideoToolbox {
            self.receive(Call::Hardware)
        } else {
            (self, Err(DecoderError::HwAccelNotActive(self.active_hwaccel)))
        }
    }

    /// The codec is asked for a frame.
    pub open spec fn receive(self, call: Call) -> Step {
        self.ask(Phase::Receiving { call }, Request::ReceiveFrame)
    }

    /// The codec needs a packet. Once it was flushed there is none to give, and
    /// it is asked for a frame again.
    pub open spec fn pump(self, call: Call) -> Step {
        if self.flushed {
            self.receive(call)
        } else {
            self.ask(Phase::Reading { call }, Request::ReadPacket)
        }
    }

    /// The codec answered.
    pub open spec fn received(self, call: Call, reply: Result<FrameInfo, FfmpegError>) -> Step {
        match reply {
            Ok(frame) => match call {
                Call::Software => self.scale(frame),
                Call::Hardware => if frame.format == PixelFormat::VideoToolbox {
                    self.ask(Phase::Extracting { pts: frame.pts }, Request::ExtractTextures)
                } else {
                    self.fail(DecoderError::HwAccelNotActive(ActiveHwAccel::Software))
                },
            },
            Err(err) => if err.again(self.host) {
                if self.drained {
                    self.finish(eof_of(call))
                } else {
                    self.pump(call)
                }
            } else if err.end() {
                DecoderModel { drained: true, ..self }.finish(eof_of(call))
            } else {
                self.fail(DecoderError::Ffmpeg(err))
            },
        }
    }

    /// The demuxer answered. Packets of other streams are skipped.
    pub open spec fn packet_read(self, call: Call, reply: Result<usize, FfmpegError>) -> Step {
        match reply {
            Ok(stream) => if stream == self.stream_index {
                self.ask(Phase::SendingPacket { call }, Request::SendPacket)
            } else {
                self.ask(Phase::Reading { call }, Request::ReadPacket)
            },
            Err(err) => if err.end() {
                self.ask(Phase::SendingEof { call }, Request::SendEof)
            } else {
                self.fail(DecoderError::Ffmpeg(err))
            },
        }
    }

    /// The codec took the packet, or did not.
    pub open spec fn packet_sent(self, call: Call, reply: Result<(), FfmpegError>) -> Step {
        match reply {
            Ok(_) => self.receive(call),
            Err(err) => self.fail(DecoderError::Ffmpeg(err)),
        }
    }

    /// The codec took the end of the stream, or did not.
    pub open spec fn eof_sent(self, call: Call, reply: Result<(), FfmpegError>) -> Step {
        match reply {
            Ok(_) => DecoderModel { flushed: true, ..self }.receive(call),
            Err(err) => self.fail(DecoderError::Ffmpeg(err)),
        }
    }

    /// A frame is to be scaled: at once where it lies in CPU memory, after a
    /// transfer where it lies on the hardware.
    pub open spec fn scale(self, frame: FrameInfo) -> Step {
        if self.active_hwaccel == ActiveHwAccel::VideoToolbox && frame.format
            == PixelFormat::VideoToolbox {
            self.ask(Phase::Transferring { pts: frame.pts }, Request::TransferFrame)
        } else {
            self.scale_from(frame.pts, FrameSource::Decoded, frame)
        }
    }

    /// The conversion of such a frame to the size of the target.
    pub open spec fn config_for(self, frame: FrameInfo) -> ScalerConfig {
        ScalerConfig {
            src_format: frame.format,
            src_width: frame.width,
            src_height: frame.height,
            dst_format: PixelFormat::Rgba,
            dst_width: self.dst_width,
            dst_height: self.dst_height,
            filter: ScaleFilter::Bilinear,
        }
    }

    /// A frame in CPU memory is scaled, with the scaler at hand where that was
    /// built for such a frame, with a new one otherwise.
    pub open spec fn scale_from(
        self,
        pts: Option<i64>,
        source: FrameSource,
        frame: FrameInfo,
    ) -> Step {
        let config = self.config_for(frame);
        if self.sws == Some(config) {
            self.ask(Phase::Scaling { pts, config }, Request::RunScaler(source))
        } else {
            self.ask(
                Phase::BuildingScaler { pts, source, config },
                Request::BuildScaler(config),
            )
        }
    }

    /// The hardware frame was copied, or was not.
    pub open spec fn transferred(self, pts: Option<i64>, status: i32, copy: FrameInfo) -> Step {
        if status < 0 {
            self.fail(DecoderError::HwTransfer(status))
        } else {
            self.scale_from(pts, FrameSource::Transferred, copy)
        }
    }

    /// The scaler was built, or was not. A new scaler starts with an empty RGBA
    /// frame.
    pub open spec fn scaler_built(
        self,
        pts: Option<i64>,
        source: FrameSource,
        config: ScalerConfig,
        reply: Result<(), FfmpegError>,
    ) -> Step {
        match reply {
            Ok(_) => DecoderModel { sws: Some(config), rgba_size: None, ..self }.ask(
                Phase::Scaling { pts, config },
                Request::RunScaler(source),
            ),
            Err(err) => self.fail(DecoderError::Ffmpeg(err)),
        }
    }

    /// The scaler ran. It gives an empty RGBA frame a buffer of its own size.
    pub open spec fn scaled(
        self,
        pts: Option<i64>,
        config: ScalerConfig,
        reply: Result<(), FfmpegError>,
    ) -> Step {
        let allocated = DecoderModel {
            rgba_size: Some((config.dst_width, config.dst_height)),
            ..self
        };
        match reply {
            Ok(_) => allocated.ask(Phase::Uploading { pts }, Request::Upload),
            Err(err) => allocated.fail(DecoderError::Ffmpeg(err)),
        }
    }

    /// The upload of the RGBA frame is prepared: the decoder once it was, and the
    /// upload.
    pub open spec fn prepared(self, plane: Seq<u8>, stride: int) -> (DecoderModel, TextureUpload) {
        (
            DecoderModel {
                upload_scratch: scratch_after(
                    plane,
                    stride,
                    self.dst_width,
                    self.dst_height,
                    self.upload_scratch,
                ),
                ..self
            },
            rgba_upload(stride, self.dst_width, self.dst_height),
        )
    }

    /// The frame's textures were made, or were not.
    pub open spec fn extracted(
        self,
        pts: Option<i64>,
        reply: Result<HwFrameTextures, DecoderError>,
    ) -> Step {
        match reply {
            Ok(textures) => self.finish(
                Progress::DecodedHw(HwDecodeOutcome::Frame { textures, pts }),
            ),
            Err(err) => self.fail(err),
        }
    }

    /// The next step of a call, once the work that it waits for came to `reply`.
    pub open spec fn step(self, reply: Reply) -> Step
        recommends
            phase_expects(self.phase, reply),
    {
        match (self.phase, reply) {
            (Phase::Receiving { call }, Reply::Received(reply)) => self.received(call, reply),
            (Phase::Reading { call }, Reply::PacketRead(reply)) => self.packet_read(call, reply),
            (Phase::SendingPacket { call }, Reply::PacketSent(reply)) => self.packet_sent(
                call,
                reply,
            ),
            (Phase::SendingEof { call }, Reply::EofSent(reply)) => self.eof_sent(call, reply),
            (Phase::Transferring { pts }, Reply::Transferred { status, copy }) => self.transferred(
                pts,
                status,
                copy,
            ),
            (Phase::BuildingScaler { pts, source, config }, Reply::ScalerBuilt(reply)) =>
                self.scaler_built(pts, source, config, reply),
            (Phase::Scaling { pts, config }, Reply::Scaled(reply)) => self.scaled(
                pts,
                config,
                reply,
            ),
            (Phase::Uploading { pts }, Reply::Uploaded) => self.finish(
                Progress::Decoded(DecodeOutcome::Frame { pts }),
            ),
            (Phase::Extracting { pts }, Reply::Extracted(reply)) => self.extracted(pts, reply),
            _ => arbitrary(),
        }
    }
}

/// A pull-style video decoder that decodes one frame per call.
#[derive(Debug)]
pub struct VideoDecoder {
    host: Host,
    stream_index: usize,
    active_hwaccel: ActiveHwAccel,
    sws: Option<ScalerConfig>,
    rgba_size: Option<(u32, u32)>,
    src_width: u32,
    src_height: u32,
    dst_width: u32,
    dst_height: u32,
    time_base: Rational,
    frame_rate: Option<Rational>,
    flushed: bool,
    drained: bool,
    upload_scratch: Vec<u8>,
    phase: Phase,
}

impl View for VideoDecoder {
    type V = DecoderModel;

    closed spec fn view(&self) -> DecoderModel {
        DecoderModel {
            host: self.host,
            stream_index: self.stream_index,
            active_hwaccel: self.active_hwaccel,
            sws: self.sws,
            rgba_size: self.rgba_size,
            src_width: self.src_width,
            src_height: self.src_height,
            dst_width: self.dst_width,
            dst_height: self.dst_height,
            time_base: self.time_base,
            frame_rate: self.frame_rate,
            flushed: self.flushed,
            drained: self.drained,
            upload_scratch: self.upload_scratch@,
            phase: self.phase,
        }
    }
}

/// A decoder that has just been opened.
pub open spec fn fresh_decoder(
    host: Host,
    stream_index: usize,
    active_hwaccel: ActiveHwAccel,
    src: (u32, u32),
    dst: (u32, u32),
    time_base: Rational,
    frame_rate: Option<Rational>,
) -> DecoderModel {
    DecoderModel {
        host,
        stream_index,
        active_hwaccel,
        sws: None,
        rgba_size: None,
        src_width: src.0,
        src_height: src.1,
        dst_width: dst.0,
        dst_height: dst.1,
        time_base,
        frame_rate,
        flushed: false,
        drained: false,
        upload_scratch: Seq::empty(),
        phase: Phase::Idle,
    }
}

impl VideoDecoder {
    pub(crate) fn fresh(
        host: Host,
        stream_index: usize,
        active_hwaccel: ActiveHwAccel,
        src: (u32, u32),
        dst: (u32, u32),
        time_base: Rational,
        frame_rate: Option<Rational>,
    ) -> (r: VideoDecoder)
        ensures
            r@ == fresh_decoder(
                host,
                stream_index,
                active_hwaccel,
                src,
                dst,
                time_base,
                frame_rate,
            ),
    {
        VideoDecoder {
            host,
            stream_index,
            active_hwaccel,
            sws: None,
            rgba_size: None,
            src_width: src.0,
            src_height: src.1,
            dst_width: dst.0,
            dst_height: dst.1,
            time_base,
            frame_rate,
            flushed: false,
            drained: false,
            upload_scratch: Vec::new(),
            phase: Phase::Idle,
        }
    }

    /// Metadata of the stream, with the size that frames are scaled to.
    pub fn info(&self) -> (r: VideoInfo)
        ensures
            r == self@.info(),
    {
        VideoInfo {
            width: self.dst_width,
            height: self.dst_height,
            time_base: self.time_base,
            frame_rate: self.frame_rate,
            hwaccel: self.active_hwaccel,
        }
    }

    /// Source (pre-scaling) frame dimensions reported by the codec.
    pub fn source_size(&self) -> (r: (u32, u32))
        ensures
            r == (self@.src_width, self@.src_height),
    {
        (self.src_width, self.src_height)
    }

    /// The hardware acceleration that was negotiated.
    pub fn hwaccel(&self) -> (r: ActiveHwAccel)
        ensures
            r == self@.active_hwaccel,
    {
        self.active_hwaccel
    }

    /// The work that the decoder waits for.
    pub fn phase(&self) -> (r: Phase)
        ensures
            r == self@.phase,
    {
        self.phase
    }

    /// Whether the codec has handed out its last frame.
    pub fn drained(&self) -> (r: bool)
        ensures
            r == self@.drained,
    {
        self.drained
    }

    /// What the scaler at hand was built for. Where there is none, any earlier
    /// scaler and the contents of the RGBA frame can be let go.
    pub fn scaler(&self) -> (r: Option<ScalerConfig>)
        ensures
            r == self@.sws,
    {
        self.sws
    }

    /// The rows that [`VideoDecoder::prepare_upload`] repacked last.
    pub fn upload_scratch(&self) -> (r: &[u8])
        ensures
            r@ == self@.upload_scratch,
    {
        self.upload_scratch.as_slice()
    }

    /// Whether the decoder waits for such a reply.
    pub fn expects(&self, reply: &Reply) -> (r: bool)
        ensures
            r == phase_expects(self@.phase, *reply),
    {
        match (&self.phase, reply) {
            (Phase::Receiving { .. }, Reply::Received(_)) => true,
            (Phase::Reading { .. }, Reply::PacketRead(_)) => true,
            (Phase::SendingPacket { .. }, Reply::PacketSent(_)) => true,
            (Phase::SendingEof { .. }, Reply::EofSent(_)) => true,
            (Phase::Transferring { .. }, Reply::Transferred { .. }) => true,
            (Phase::BuildingScaler { .. }, Reply::ScalerBuilt(_)) => true,
            (Phase::Scaling { .. }, Reply::Scaled(_)) => true,
            (Phase::Uploading { .. }, Reply::Uploaded) => true,
            (Phase::Extracting { .. }, Reply::Extracted(_)) => true,
            _ => false,
        }
    }

    /// Start to decode the next frame, to upload it to `target`.
    ///
    /// If the texture has been resized the scaler is dropped, so that the next
    /// frame is scaled to the new size. A call that was not carried to its end
    /// is given up.
    pub fn decode_next(&mut self, target: TargetTexture) -> (r: Result<Progress, DecoderError>)
        ensures
            (final(self)@, r) == old(self)@.begin(target),
            old(self)@.valid() ==> final(self)@.valid(),
    {
        let TargetTexture { format, width, height } = target;
        match validate_target(format) {
            Ok(()) => {},
            Err(err) => {
                return Err(err);
            },
        }
        if width != self.dst_width || height != self.dst_height {
            self.dst_width = width;
            self.dst_height = height;
            self.sws = None;
            self.rgba_size = None;
        }
        self.receive_frame(Call::Software)
    }

    /// Start to decode the next frame on the hardware. A call that was not
    /// carried to its end is given up.
    pub fn decode_next_hw(&mut self) -> (r: Result<Progress, DecoderError>)
        ensures
            (final(self)@, r) == old(self)@.begin_hw(),
            old(self)@.valid() ==> final(self)@.valid(),
    {
        if self.active_hwaccel != ActiveHwAccel::VideoToolbox {
            return Err(DecoderError::HwAccelNotActive(self.active_hwaccel));
        }
        self.receive_frame(Call::Hardware)
    }

    fn ask(&mut self, phase: Phase, request: Request) -> (r: Result<Progress, DecoderError>)
        ensures
            (final(self)@, r) == old(self)@.ask(phase, request),
    {
        self.phase = phase;
        Ok(Progress::Ask(request))
    }

    fn finish(&mut self, progress: Progress) -> (r: Result<Progress, DecoderError>)
        ensures
            (final(self)@, r) == old(self)@.finish(progress),
    {
        self.phase = Phase::Idle;
        Ok(progress)
    }

    fn fail(&mut self, error: DecoderError) -> (r: Result<Progress, DecoderError>)
        ensures
            (final(self)@, r) == old(self)@.fail(error),
    {
        self.phase = Phase::Idle;
        Err(error)
    }

    fn receive_frame(&mut self, call: Call) -> (r: Result<Progress, DecoderError>)
        ensures
            (final(self)@, r) == old(self)@.receive(call),
    {
        self.ask(Phase::Receiving { call }, Request::ReceiveFrame)
    }

    fn finish_eof(&mut self, call: Call) -> (r: Result<Progress, DecoderError>)
        ensures
            (final(self)@, r) == old(self)@.finish(eof_of(call)),
    {
        match call {
            Call::Software => self.finish(Progress::Decoded(DecodeOutcome::Eof)),
            Call::Hardware => self.finish(Progress::DecodedHw(HwDecodeOutcome::Eof)),
        }
    }

    fn frame_received(&mut self, call: Call, reply: Result<FrameInfo, FfmpegError>) -> (r: Result<
        Progress,
        DecoderError,
    >)
        requires
            old(self)@.phase == (Phase::Receiving { call }),
        ensures
            (final(self)@, r) == old(self)@.received(call, reply),
    {
        match reply {
            Ok(frame) => match call {
                Call::Software => self.scale_and_upload(frame),
                Call::Hardware => {
                    if frame.format != PixelFormat::VideoToolbox {
                        // The codec produced a software frame although
                        // VideoToolbox was negotiated.
                        return self.fail(DecoderError::HwAccelNotActive(ActiveHwAccel::Software));
                    }
                    self.ask(Phase::Extracting { pts: frame.pts }, Request::ExtractTextures)
                },
            },
            Err(err) => {
                if err.is_again(self.host) {
                    if self.drained {
                        return self.finish_eof(call);
                    }
                    return self.pump_packet(call);
                }
                if err.is_end() {
                    self.drained = true;
                    return self.finish_eof(call);
                }
                self.fail(DecoderError::Ffmpeg(err))
            },
        }
    }

    /// Feed the codec, which has no frame to give before it gets a packet: ask
    /// for the next packet of the input. Once the codec was flushed nothing is
    /// read or sent any more, and the codec is asked for a frame again.
    pub fn pump_packet(&mut self, call: Call) -> (r: Result<Progress, DecoderError>)
        requires
            old(self)@.phase == (Phase::Receiving { call }),
            !old(self)@.drained,
        ensures
            (final(self)@, r) == old(self)@.pump(call),
            old(self)@.flushed ==> final(self)@ == old(self)@,
            old(self)@.valid() ==> final(self)@.valid(),
    {
        if self.flushed {
            return self.receive_frame(call);
        }
        self.ask(Phase::Reading { call }, Request::ReadPacket)
    }

    fn packet_read(&mut self, call: Call, reply: Result<usize, FfmpegError>) -> (r: Result<
        Progress,
        DecoderError,
    >)
        ensures
            (final(self)@, r) == old(self)@.packet_read(call, reply),
    {
        match reply {
            Ok(stream) => {
                if stream == self.stream_index {
                    return self.ask(Phase::SendingPacket { call }, Request::SendPacket);
                }
                // The packet belongs to another stream; keep reading.
                self.ask(Phase::Reading { call }, Request::ReadPacket)
            },
            Err(err) => {
                if err.is_end() {
                    return self.ask(Phase::SendingEof { call }, Request::SendEof);
                }
                self.fail(DecoderError::Ffmpeg(err))
            },
        }
    }

    fn packet_sent(&mut self, call: Call, reply: Result<(), FfmpegError>) -> (r: Result<
        Progress,
        DecoderError,
    >)
        ensures
            (final(self)@, r) == old(self)@.packet_sent(call, reply),
    {
        match reply {
            Ok(()) => self.receive_frame(call),
            Err(err) => self.fail(DecoderError::Ffmpeg(err)),
        }
    }

    fn eof_sent(&mut self, call: Call, reply: Result<(), FfmpegError>) -> (r: Result<
        Progress,
        DecoderError,
    >)
        ensures
            (final(self)@, r) == old(self)@.eof_sent(call, reply),
    {
        match reply {
            Ok(()) => {
                self.flushed = true;
                self.receive_frame(call)
            },
            Err(err) => self.fail(DecoderError::Ffmpeg(err)),
        }
    }

    fn scale_and_upload(&mut self, frame: FrameInfo) -> (r: Result<Progress, DecoderError>)
        ensures
            (final(self)@, r) == old(self)@.scale(frame),
    {
        let from_hw = self.active_hwaccel == ActiveHwAccel::VideoToolbox && frame.format
            == PixelFormat::VideoToolbox;
        if from_hw {
            return self.ask(Phase::Transferring { pts: frame.pts }, Request::TransferFrame);
        }
        self.ensure_scaler(frame.pts, FrameSource::Decoded, frame)
    }

    fn frame_transferred(&mut self, pts: Option<i64>, status: i32, copy: FrameInfo) -> (r: Result<
        Progress,
        DecoderError,
    >)
        ensures
            (final(self)@, r) == old(self)@.transferred(pts, status, copy),
    {
        if status < 0 {
            return self.fail(DecoderError::HwTransfer(status));
        }
        self.ensure_scaler(pts, FrameSource::Transferred, copy)
    }

    fn ensure_scaler(&mut self, pts: Option<i64>, source: FrameSource, frame: FrameInfo) -> (r:
        Result<Progress, DecoderError>)
        ensures
            (final(self)@, r) == old(self)@.scale_from(pts, source, frame),
    {
        let config = ScalerConfig {
            src_format: frame.format,
            src_width: frame.width,
            src_height: frame.height,
            dst_format: PixelFormat::Rgba,
            dst_width: self.dst_width,
            dst_height: self.dst_height,
            filter: ScaleFilter::Bilinear,
        };
        let needs_rebuild = match self.sws {
            None => true,
            Some(sws) => sws != config,
        };
        if !needs_rebuild {
            return self.ask(Phase::Scaling { pts, config }, Request::RunScaler(source));
        }
        self.ask(Phase::BuildingScaler { pts, source, config }, Request::BuildScaler(config))
    }

    fn scaler_built(
        &mut self,
        pts: Option<i64>,
        source: FrameSource,
        config: ScalerConfig,
        reply: Result<(), FfmpegError>,
    ) -> (r: Result<Progress, DecoderError>)
        ensures
            (final(self)@, r) == old(self)@.scaler_built(pts, source, config, reply),
    {
        match reply {
            Ok(()) => {
                self.sws = Some(config);
                self.rgba_size = None;
                self.ask(Phase::Scaling { pts, config }, Request::RunScaler(source))
            },
            Err(err) => self.fail(DecoderError::Ffmpeg(err)),
        }
    }

    fn frame_scaled(
        &mut self,
        pts: Option<i64>,
        config: ScalerConfig,
        reply: Result<(), FfmpegError>,
    ) -> (r: Result<Progress, DecoderError>)
        ensures
            (final(self)@, r) == old(self)@.scaled(pts, config, reply),
    {
        self.rgba_size = Some((config.dst_width, config.dst_height));
        match reply {
            Ok(()) => self.ask(Phase::Uploading { pts }, Request::Upload),
            Err(err) => self.fail(DecoderError::Ffmpeg(err)),
        }
    }

    fn textures_extracted(
        &mut self,
        pts: Option<i64>,
        reply: Result<HwFrameTextures, DecoderError>,
    ) -> (r: Result<Progress, DecoderError>)
        ensures
            (final(self)@, r) == old(self)@.extracted(pts, reply),
    {
        match reply {
            Ok(textures) => self.finish(
                Progress::DecodedHw(HwDecodeOutcome::Frame { textures, pts }),
            ),
            Err(err) => self.fail(err),
        }
    }

    /// Prepare the upload of the RGBA frame, whose first plane is `plane` with
    /// rows `stride` bytes apart, to a texture of the size that frames are
    /// scaled to.
    pub fn prepare_upload(&mut self, plane: &[u8], stride: usize) -> (r: TextureUpload)
        requires
            packed_row(old(self)@.dst_width as int) <= u32::MAX,
            stride != packed_row(old(self)@.dst_width as int) ==> {
                &&& rows_fit(
                    plane@.len() as int,
                    stride as int,
                    old(self)@.dst_width as int,
                    old(self)@.dst_height as int,
                )
                &&& packed_row(old(self)@.dst_width as int) * old(self)@.dst_height <= usize::MAX
            },
        ensures
            (final(self)@, r) == old(self)@.prepared(plane@, stride as int),
            r == rgba_upload(stride as int, old(self)@.dst_width, old(self)@.dst_height),
            final(self)@ == (DecoderModel {
                upload_scratch: scratch_after(
                    plane@,
                    stride as int,
                    old(self)@.dst_width,
                    old(self)@.dst_height,
                    old(self)@.upload_scratch,
                ),
                ..old(self)@
            }),
            old(self)@.valid() ==> final(self)@.valid(),
    {
        upload_rgba(plane, stride, self.dst_width, self.dst_height, &mut self.upload_scratch)
    }

    /// Carry a call on with what the work that it asked for came to.
    pub fn resume(&mut self, reply: Reply) -> (r: Result<Progress, DecoderError>)
        requires
            phase_expects(old(self)@.phase, reply),
        ensures
            (final(self)@, r) == old(self)@.step(reply),
            old(self)@.valid() ==> final(self)@.valid(),
    {
        match (self.phase, reply) {
            (Phase::Receiving { call }, Reply::Received(reply)) => self.frame_received(call, reply),
            (Phase::Reading { call }, Reply::PacketRead(reply)) => self.packet_read(call, reply),
            (Phase::SendingPacket { call }, Reply::PacketSent(reply)) => self.packet_sent(
                call,
                reply,
            ),
            (Phase::SendingEof { call }, Reply::EofSent(reply)) => self.eof_sent(call, reply),
            (Phase::Transferring { pts }, Reply::Transferred { status, copy }) => {
                self.frame_transferred(pts, status, copy)
            },
            (Phase::BuildingScaler { pts, source, config }, Reply::ScalerBuilt(reply)) => {
                self.scaler_built(pts, source, config, reply)
            },
            (Phase::Scaling { pts, config }, Reply::Scaled(reply)) => self.frame_scaled(
                pts,
                config,
                reply,
            ),
            (Phase::Uploading { pts }, Reply::Uploaded) => self.finish(
                Progress::Decoded(DecodeOutcome::Frame { pts }),
            ),
            (Phase::Extracting { pts }, Reply::Extracted(reply)) => self.textures_extracted(
                pts,
                reply,
            ),
            (_, _) => {
                // Every reply that the decoder waits for is handled above.
                assert(false);
                self.finish(Progress::Decoded(DecodeOutcome::Eof))
            },
        }
    }
}

} // verus!
