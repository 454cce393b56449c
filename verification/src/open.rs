//! Opening a video: the choice of the stream, the negotiation of the hardware
//! and the first state of the decoder.
//!
//! Opening goes through stages. Each is a value that takes what the next piece
//! of outside work came to, and leads to the next stage or to an error.

use crate::decoder::{fresh_decoder, DecoderModel, VideoDecoder};
use crate::error::DecoderError;
use crate::hwaccel::{
    after_device, device_ok, finish_hwaccel, hw_setup, resolve_hwaccel, resolved, setup_hwaccel,
    supports_device, ActiveHwAccel, DeviceType, FallbackReason, HwAccel, HwConfig, HwSetup, Negotiated,
};
use crate::media::{CodecId, FfmpegError, Host, Rational};
use crate::texture::{at_least_one, clamp_side};
use vstd::prelude::*;

verus! {

/// What a stream says of itself.
#[derive(Debug, Clone, Copy, PartialEq, Eq, Structural)]
pub struct StreamInfo {
    pub index: usize,
    pub time_base: Rational,
    pub avg_frame_rate: Rational,
}

/// What FFmpeg knows of the codec of a stream.
#[derive(Debug, Clone, PartialEq, Eq)]
pub struct CodecInfo {
    pub codec: CodecId,
    /// The hardware configurations of its decoder, where it has a decoder.
    pub configs: Option<Vec<HwConfig>>,
}

/// A video that is to be opened.
#[derive(Debug, Clone, Copy, PartialEq, Eq, Structural)]
pub struct OpenPlan {
    pub dst_width: u32,
    pub dst_height: u32,
    pub hwaccel: HwAccel,
    pub host: Host,
}

/// A video whose stream was chosen. The codec is to be set up from the
/// parameters of the stream.
#[derive(Debug, Clone, Copy, PartialEq, Eq, Structural)]
pub struct StreamPlan {
    pub plan: OpenPlan,
    pub stream_index: usize,
    pub time_base: Rational,
    pub frame_rate: Option<Rational>,
}

/// A video whose codec was set up.
#[derive(Debug, Clone, Copy, PartialEq, Eq, Structural)]
pub enum CodecPlan {
    /// The codec can be opened.
    Open(ReadyPlan),
    /// A hardware device is to be created first.
    CreateDevice { device_type: DeviceType, stream: StreamPlan },
}

/// A video whose hardware was negotiated. The codec is to be opened.
#[derive(Debug, Clone, Copy, PartialEq, Eq, Structural)]
pub struct ReadyPlan {
    pub stream: StreamPlan,
    pub negotiated: Negotiated,
}

/// The frame rate of a stream: unknown where FFmpeg reports a zero.
pub open spec fn known_rate(rate: Rational) -> Option<Rational> {
    if rate.numerator == 0 {
        None
    } else {
        Some(rate)
    }
}

/// The stream of an input that is decoded, where it has one.
pub open spec fn chosen_stream(input: Result<Option<StreamInfo>, FfmpegError>) -> Result<
    StreamInfo,
    DecoderError,
> {
    match input {
        Err(err) => Err(DecoderError::Ffmpeg(err)),
        Ok(None) => Err(DecoderError::NoVideoStream),
        Ok(Some(stream)) => Ok(stream),
    }
}

fn choose_stream(input: Result<Option<StreamInfo>, FfmpegError>) -> (r: Result<
    StreamInfo,
    DecoderError,
>)
    ensures
        r == chosen_stream(input),
{
    match input {
        Err(err) => Err(DecoderError::Ffmpeg(err)),
        Ok(None) => Err(DecoderError::NoVideoStream),
        Ok(Some(stream)) => Ok(stream),
    }
}

/// The size of the frames of a video, as its opened codec reports it.
pub open spec fn probed(
    input: Result<Option<StreamInfo>, FfmpegError>,
    opened: Result<(u32, u32), FfmpegError>,
) -> Result<(u32, u32), DecoderError> {
    match chosen_stream(input) {
        Err(err) => Err(err),
        Ok(_) => match opened {
            Err(err) => Err(DecoderError::Ffmpeg(err)),
            Ok(size) => Ok(size),
        },
    }
}

/// Convenience: a video's source dimensions without keeping a decoder open.
///
/// `input` is what opening the file and looking for its best video stream came
/// to, and `opened` what setting up and opening the codec of that stream came
/// to, which is of no account where there is no stream.
pub fn probe_dimensions(
    input: Result<Option<StreamInfo>, FfmpegError>,
    opened: Result<(u32, u32), FfmpegError>,
) -> (r: Result<(u32, u32), DecoderError>)
    ensures
        r == probed(input, opened),
{
    match choose_stream(input) {
        Err(err) => Err(err),
        Ok(_) => match opened {
            Err(err) => Err(DecoderError::Ffmpeg(err)),
            Ok(size) => Ok(size),
        },
    }
}

impl VideoDecoder {
    /// Prepare to open a video and to decode its best video stream into frames
    /// of `dst_width` x `dst_height` RGBA pixels.
    ///
    /// Uses [`HwAccel::Auto`]: VideoToolbox on macOS, software elsewhere.
    pub fn open(dst_width: u32, dst_height: u32, host: Host) -> (r: OpenPlan)
        ensures
            r == open_plan(dst_width, dst_height, HwAccel::Auto, host),
    {
        Self::open_with(dst_width, dst_height, HwAccel::default(), host)
    }

    /// Prepare to open a video with an explicit choice of the hardware.
    pub fn open_with(dst_width: u32, dst_height: u32, hwaccel: HwAccel, host: Host) -> (r: OpenPlan)
        ensures
            r == open_plan(dst_width, dst_height, hwaccel, host),
    {
        OpenPlan {
            dst_width: clamp_side(dst_width),
            dst_height: clamp_side(dst_height),
            hwaccel,
            host,
        }
    }
}

/// The plan to open a video. An empty side of the frames is one pixel long.
pub open spec fn open_plan(dst_width: u32, dst_height: u32, hwaccel: HwAccel, host: Host) -> OpenPlan {
    OpenPlan {
        dst_width: at_least_one(dst_width),
        dst_height: at_least_one(dst_height),
        hwaccel,
        host,
    }
}

impl OpenPlan {
    /// The stage that follows the choice of a stream.
    pub open spec fn with_stream(self, stream: StreamInfo) -> StreamPlan {
        StreamPlan {
            plan: self,
            stream_index: stream.index,
            time_base: stream.time_base,
            frame_rate: known_rate(stream.avg_frame_rate),
        }
    }

    /// The stage that follows the opening of the input.
    pub open spec fn after_input(self, input: Result<Option<StreamInfo>, FfmpegError>) -> Result<
        StreamPlan,
        DecoderError,
    > {
        match chosen_stream(input) {
            Err(err) => Err(err),
            Ok(stream) => Ok(self.with_stream(stream)),
        }
    }

    /// Go on once the file was opened and its best video stream looked for.
    pub fn from_input(self, input: Result<Option<StreamInfo>, FfmpegError>) -> (r: Result<
        StreamPlan,
        DecoderError,
    >)
        ensures
            r == self.after_input(input),
    {
        match choose_stream(input) {
            Err(err) => Err(err),
            Ok(stream) => {
                let frame_rate = if stream.avg_frame_rate.numerator == 0 {
                    None
                } else {
                    Some(stream.avg_frame_rate)
                };
                Ok(
                    StreamPlan {
                        plan: self,
                        stream_index: stream.index,
                        time_base: stream.time_base,
                        frame_rate,
                    },
                )
            },
        }
    }
}

/// The configurations of a codec's decoder, as a sequence.
pub open spec fn codec_configs(configs: Option<Vec<HwConfig>>) -> Option<Seq<HwConfig>> {
    match configs {
        None => None,
        Some(configs) => Some(configs@),
    }
}

impl StreamPlan {
    /// The stage that follows the set-up of the codec.
    pub open spec fn after_context(self, context: Result<CodecInfo, FfmpegError>) -> Result<
        CodecPlan,
        DecoderError,
    > {
        match context {
            Err(err) => Err(DecoderError::Ffmpeg(err)),
            Ok(info) => match hw_setup(
                codec_configs(info.configs),
                info.codec,
                self.plan.hwaccel,
                resolved(self.plan.hwaccel, self.plan.host),
            ) {
                Err(err) => Err(err),
                Ok(HwSetup::Software(fallback)) => Ok(CodecPlan::Open(self.in_software(fallback))),
                Ok(HwSetup::CreateDevice(device_type)) => Ok(
                    CodecPlan::CreateDevice { device_type, stream: self },
                ),
            },
        }
    }

    /// The stage of a video that is decoded in software.
    pub open spec fn in_software(self, fallback: Option<FallbackReason>) -> ReadyPlan {
        ReadyPlan {
            stream: self,
            negotiated: Negotiated { active: ActiveHwAccel::Software, fallback },
        }
    }

    /// Go on once the codec was set up from the parameters of the stream.
    pub fn context_ready(self, context: Result<CodecInfo, FfmpegError>) -> (r: Result<
        CodecPlan,
        DecoderError,
    >)
        ensures
            r == self.after_context(context),
    {
        let CodecInfo { codec, configs } = match context {
            Err(err) => {
                return Err(DecoderError::Ffmpeg(err));
            },
            Ok(info) => info,
        };
        let resolved = resolve_hwaccel(self.plan.hwaccel, self.plan.host);
        let setup = match configs {
            None => setup_hwaccel(None, codec, self.plan.hwaccel, resolved),
            Some(configs) => setup_hwaccel(
                Some(configs.as_slice()),
                codec,
                self.plan.hwaccel,
                resolved,
            ),
        };
        match setup {
            Err(err) => Err(err),
            Ok(HwSetup::Software(fallback)) => Ok(
                CodecPlan::Open(
                    ReadyPlan {
                        stream: self,
                        negotiated: Negotiated { active: ActiveHwAccel::Software, fallback },
                    },
                ),
            ),
            Ok(HwSetup::CreateDevice(device_type)) => Ok(
                CodecPlan::CreateDevice { device_type, stream: self },
            ),
        }
    }

    /// The stage that follows the creation of a device.
    pub open spec fn after_device(self, status: i32, present: bool) -> Result<
        ReadyPlan,
        DecoderError,
    > {
        match after_device(self.plan.hwaccel, status, present) {
            Err(err) => Err(err),
            Ok(negotiated) => Ok(ReadyPlan { stream: self, negotiated }),
        }
    }

    /// Go on once FFmpeg was asked for a device: `status` is what it returned,
    /// and `present` says whether it handed out a device.
    pub fn device_ready(self, status: i32, present: bool) -> (r: Result<ReadyPlan, DecoderError>)
        ensures
            r == self.after_device(status, present),
    {
        match finish_hwaccel(self.plan.hwaccel, status, present) {
            Err(err) => Err(err),
            Ok(negotiated) => Ok(ReadyPlan { stream: self, negotiated }),
        }
    }
}

impl ReadyPlan {
    /// The decoder of a video whose codec reports frames of the given size.
    pub open spec fn decoder(self, size: (u32, u32)) -> DecoderModel {
        fresh_decoder(
            self.stream.plan.host,
            self.stream.stream_index,
            self.negotiated.active,
            size,
            (self.stream.plan.dst_width, self.stream.plan.dst_height),
            self.stream.time_base,
            self.stream.frame_rate,
        )
    }

    /// The end of opening, where the codec was opened or was not.
    pub open spec fn after_opened(self, opened: Result<(u32, u32), FfmpegError>) -> Result<
        DecoderModel,
        DecoderError,
    > {
        match opened {
            Err(err) => Err(DecoderError::Ffmpeg(err)),
            Ok(size) => Ok(self.decoder(size)),
        }
    }

    /// Finish once the codec was opened, which then reports the size of its
    /// frames.
    pub fn codec_opened(self, opened: Result<(u32, u32), FfmpegError>) -> (r: Result<
        VideoDecoder,
        DecoderError,
    >)
        ensures
            match r {
                Ok(decoder) => self.after_opened(opened) == Ok::<DecoderModel, DecoderError>(
                    decoder@,
                ),
                Err(err) => self.after_opened(opened) == Err::<DecoderModel, DecoderError>(err),
            },
            match opened {
                Err(err) => r == Err::<VideoDecoder, DecoderError>(DecoderError::Ffmpeg(err)),
                Ok(size) => r matches Ok(decoder) && decoder@ == self.decoder(size)
                    && decoder@.valid(),
            },
    {
        match opened {
            Err(err) => Err(DecoderError::Ffmpeg(err)),
            Ok(size) => Ok(
                VideoDecoder::fresh(
                    self.stream.plan.host,
                    self.stream.stream_index,
                    self.negotiated.active,
                    size,
                    (self.stream.plan.dst_width, self.stream.plan.dst_height),
                    self.stream.time_base,
                    self.stream.frame_rate,
                ),
            ),
        }
    }
}

/// What the outside work comes to while a video is opened.
pub struct OpenWork {
    pub input: Result<Option<StreamInfo>, FfmpegError>,
    pub context: Result<CodecInfo, FfmpegError>,
    pub device_status: i32,
    pub device_present: bool,
    pub opened: Result<(u32, u32), FfmpegError>,
}

/// What opening a video comes to: all stages, one after the other.
pub open spec fn open_outcome(plan: OpenPlan, work: OpenWork) -> Result<DecoderModel, DecoderError> {
    match plan.after_input(work.input) {
        Err(err) => Err(err),
        Ok(stream) => match stream.after_context(work.context) {
            Err(err) => Err(err),
            Ok(CodecPlan::Open(ready)) => opened_decoder(ready, work),
            Ok(CodecPlan::CreateDevice { stream, .. }) => match stream.after_device(
                work.device_status,
                work.device_present,
            ) {
                Err(err) => Err(err),
                Ok(ready) => opened_decoder(ready, work),
            },
        },
    }
}

/// The last stage.
pub open spec fn opened_decoder(ready: ReadyPlan, work: OpenWork) -> Result<
    DecoderModel,
    DecoderError,
> {
    match work.opened {
        Err(err) => Err(DecoderError::Ffmpeg(err)),
        Ok(size) => Ok(ready.decoder(size)),
    }
}

/// Whether the outside work that opening needs in any case succeeds.
pub open spec fn video_opens(work: OpenWork) -> bool {
    &&& work.input matches Ok(Some(_))
    &&& work.context is Ok
    &&& work.opened is Ok
}

/// A decoder that was opened decodes the chosen stream, into frames of the
/// requested size but with no empty side, and reports the stream's metadata and
/// the size of the source.
pub proof fn law_opened_decoder(
    dst_width: u32,
    dst_height: u32,
    hwaccel: HwAccel,
    host: Host,
    work: OpenWork,
)
    ensures
        open_outcome(open_plan(dst_width, dst_height, hwaccel, host), work) matches Ok(m) ==> {
            &&& video_opens(work)
            &&& m.valid() && m.phase is Idle && !m.flushed && !m.drained && m.sws is None
            &&& m.dst_width >= 1 && m.dst_height >= 1
            &&& dst_width >= 1 ==> m.dst_width == dst_width
            &&& dst_height >= 1 ==> m.dst_height == dst_height
            &&& (m.src_width, m.src_height) == work.opened->Ok_0
            &&& m.stream_index == work.input->Ok_0->0.index
            &&& m.time_base == work.input->Ok_0->0.time_base
            &&& m.frame_rate is None <==> work.input->Ok_0->0.avg_frame_rate.numerator == 0
            &&& m.frame_rate matches Some(rate) ==> rate == work.input->Ok_0->0.avg_frame_rate
        },
{
}

/// A video is opened in software where that was asked for, whatever hardware
/// the codec could use; and where the choice was left open, opening never fails
/// for want of hardware.
pub proof fn law_software_always_opens(
    dst_width: u32,
    dst_height: u32,
    hwaccel: HwAccel,
    host: Host,
    work: OpenWork,
)
    requires
        hwaccel != HwAccel::VideoToolbox,
        video_opens(work),
    ensures
        open_outcome(open_plan(dst_width, dst_height, hwaccel, host), work) is Ok,
        hwaccel == HwAccel::Software || !host.apple ==> open_outcome(
            open_plan(dst_width, dst_height, hwaccel, host),
            work,
        )->Ok_0.active_hwaccel == ActiveHwAccel::Software,
{
}

/// A request for VideoToolbox is met or refused: it never ends in a decoder
/// that decodes in software.
pub proof fn law_videotoolbox_is_met_or_refused(
    dst_width: u32,
    dst_height: u32,
    host: Host,
    work: OpenWork,
)
    ensures
        open_outcome(
            open_plan(dst_width, dst_height, HwAccel::VideoToolbox, host),
            work,
        ) matches Ok(m) ==> m.active_hwaccel == ActiveHwAccel::VideoToolbox,
{
}

/// What a request for VideoToolbox is answered on a video that opens in
/// software: that the codec does not support it, where FFmpeg has no decoder or
/// the decoder does not advertise it; or what FFmpeg reported when the device
/// was created.
pub proof fn law_videotoolbox_refusals(
    dst_width: u32,
    dst_height: u32,
    host: Host,
    work: OpenWork,
)
    requires
        video_opens(work),
    ensures
        ({
            let outcome = open_outcome(
                open_plan(dst_width, dst_height, HwAccel::VideoToolbox, host),
                work,
            );
            let supported = codec_configs(work.context->Ok_0.configs) matches Some(configs)
                && supports_device(configs, DeviceType::VideoToolbox);
            &&& !supported ==> outcome == Err::<DecoderModel, DecoderError>(
                DecoderError::HwAccelUnsupported {
                    requested: HwAccel::VideoToolbox,
                    codec: work.context->Ok_0.codec,
                },
            )
            &&& supported && !device_ok(work.device_status, work.device_present) ==> outcome
                == Err::<DecoderModel, DecoderError>(
                DecoderError::HwDeviceInit(work.device_status),
            )
            &&& supported && device_ok(work.device_status, work.device_present) ==> outcome is Ok
        }),
{
}

/// VideoToolbox is used if and only if it was asked for, or was left open on an
/// Apple host, and the codec supports it and the device could be created.
pub proof fn law_when_hardware_is_used(
    dst_width: u32,
    dst_height: u32,
    hwaccel: HwAccel,
    host: Host,
    work: OpenWork,
)
    requires
        open_outcome(open_plan(dst_width, dst_height, hwaccel, host), work) is Ok,
    ensures
        open_outcome(
            open_plan(dst_width, dst_height, hwaccel, host),
            work,
        )->Ok_0.active_hwaccel == ActiveHwAccel::VideoToolbox <==> {
            &&& resolved(hwaccel, host) == HwAccel::VideoToolbox
            &&& codec_configs(work.context->Ok_0.configs) matches Some(configs)
                && supports_device(configs, DeviceType::VideoToolbox)
            &&& device_ok(work.device_status, work.device_present)
        },
{
}

/// Probing a video reports the source size that a decoder opened on it reports.
pub proof fn law_probe_agrees(
    dst_width: u32,
    dst_height: u32,
    hwaccel: HwAccel,
    host: Host,
    work: OpenWork,
)
    requires
        open_outcome(open_plan(dst_width, dst_height, hwaccel, host), work) is Ok,
    ensures
        ({
            let m = open_outcome(open_plan(dst_width, dst_height, hwaccel, host), work)->Ok_0;
            probed(work.input, work.opened) == Ok::<(u32, u32), DecoderError>(
                (m.src_width, m.src_height),
            )
        }),
{
}

/// A video is planned to be opened at exactly the size, with the hardware and
/// on the host that were given, but with no empty side.
pub proof fn law_plan_keeps_the_request(dst_width: u32, dst_height: u32, hwaccel: HwAccel, host: Host)
    ensures
        ({
            let plan = open_plan(dst_width, dst_height, hwaccel, host);
            &&& plan.dst_width == (if dst_width > 0 {
                dst_width
            } else {
                1
            })
            &&& plan.dst_height == (if dst_height > 0 {
                dst_height
            } else {
                1
            })
            &&& plan.hwaccel == hwaccel
            &&& plan.host == host
        }),
{
}

/// The stream of an input is taken as it is. An input without a video stream
/// is refused, and one that cannot be opened is answered with FFmpeg's error.
pub proof fn law_stream_is_taken_as_it_is(
    plan: OpenPlan,
    input: Result<Option<StreamInfo>, FfmpegError>,
)
    ensures
        match input {
            Ok(Some(stream)) => plan.after_input(input) matches Ok(next) && {
                &&& next.plan == plan
                &&& next.stream_index == stream.index
                &&& next.time_base == stream.time_base
                &&& next.frame_rate is None <==> stream.avg_frame_rate.numerator == 0
                &&& next.frame_rate matches Some(rate) ==> rate == stream.avg_frame_rate
            },
            Ok(None) => plan.after_input(input) == Err::<StreamPlan, DecoderError>(
                DecoderError::NoVideoStream,
            ),
            Err(err) => plan.after_input(input) == Err::<StreamPlan, DecoderError>(
                DecoderError::Ffmpeg(err),
            ),
        },
{
}

/// Probing tells the size that the opened codec reports, of a video that has a
/// stream and whose codec opens, and what failed first otherwise.
pub proof fn law_probe_tells_the_size(
    input: Result<Option<StreamInfo>, FfmpegError>,
    opened: Result<(u32, u32), FfmpegError>,
)
    ensures
        probed(input, opened) is Ok <==> ((input matches Ok(Some(_))) && opened is Ok),
        probed(input, opened) matches Ok(size) ==> size == opened->Ok_0,
        input matches Err(err) ==> probed(input, opened) == Err::<(u32, u32), DecoderError>(
            DecoderError::Ffmpeg(err),
        ),
        input == Ok::<Option<StreamInfo>, FfmpegError>(None) ==> probed(input, opened) == Err::<
            (u32, u32),
            DecoderError,
        >(DecoderError::NoVideoStream),
        (input matches Ok(Some(_))) && opened is Err ==> probed(input, opened) == Err::<
            (u32, u32),
            DecoderError,
        >(DecoderError::Ffmpeg(opened->Err_0)),
{
}

/// Once the codec is set up, a device is created exactly where VideoToolbox was
/// asked for, or the choice was left open on an Apple host, and a configuration
/// of the codec's decoder names it and has the lowest bit of its methods set.
/// Where hardware that was wanted cannot be had, the caller falls back or is
/// refused by what they asked for. The stream is carried on unchanged.
pub proof fn law_codec_set_up(stream: StreamPlan, context: Result<CodecInfo, FfmpegError>)
    ensures
        ({
            let r = stream.after_context(context);
            let asked = stream.plan.hwaccel;
            let wanted = asked == HwAccel::VideoToolbox || (asked == HwAccel::Auto
                && stream.plan.host.apple);
            &&& context matches Err(err) ==> r == Err::<CodecPlan, DecoderError>(
                DecoderError::Ffmpeg(err),
            )
            &&& context matches Ok(info) ==> {
                let able = info.configs matches Some(configs) && exists|i: int|
                    0 <= i < configs@.len() && (#[trigger] configs@[i]).methods & 0x01i32 != 0
                        && configs@[i].device_type is VideoToolbox;
                &&& wanted && able ==> r == Ok::<CodecPlan, DecoderError>(
                    CodecPlan::CreateDevice { device_type: DeviceType::VideoToolbox, stream },
                )
                &&& wanted && !able && asked != HwAccel::Auto ==> r == Err::<
                    CodecPlan,
                    DecoderError,
                >(DecoderError::HwAccelUnsupported { requested: asked, codec: info.codec })
                &&& !wanted || (!able && asked == HwAccel::Auto) ==> {
                    &&& r matches Ok(CodecPlan::Open(ready))
                    &&& ready.stream == stream
                    &&& ready.negotiated.active is Software
                    &&& ready.negotiated.fallback == (if !wanted {
                        None
                    } else if info.configs is None {
                        Some(FallbackReason::NoDecoder)
                    } else {
                        Some(FallbackReason::NotAdvertised)
                    })
                }
            }
        }),
{
    if context is Ok {
        let configs = context->Ok_0.configs;
        if configs is Some {
            crate::hwaccel::law_support_is_the_lowest_bit(configs->0@, DeviceType::VideoToolbox);
        }
        crate::hwaccel::law_auto_follows_host(stream.plan.hwaccel, stream.plan.host);
    }
}

/// Once FFmpeg was asked for a device, VideoToolbox is used exactly where it
/// reported no error and handed one out. Otherwise its status is passed on: as
/// the reason for software where the choice was left open, as an error where
/// not. The stream is carried on unchanged.
pub proof fn law_device_answer(stream: StreamPlan, status: i32, present: bool)
    ensures
        ({
            let r = stream.after_device(status, present);
            let got = status >= 0 && present;
            &&& r is Err <==> !got && stream.plan.hwaccel != HwAccel::Auto
            &&& r matches Err(err) ==> err == DecoderError::HwDeviceInit(status)
            &&& r matches Ok(ready) ==> {
                &&& ready.stream == stream
                &&& ready.negotiated.active is VideoToolbox <==> got
                &&& ready.negotiated.fallback == (if got {
                    None
                } else {
                    Some(FallbackReason::DeviceInit(status))
                })
            }
        }),
{
}

/// The decoder that is opened in the end is a new one, on the stream that was
/// chosen, at the size that was asked for and with the hardware that was
/// negotiated; the size of the source is what the codec reports.
pub proof fn law_decoder_is_what_was_planned(ready: ReadyPlan, size: (u32, u32))
    ensures
        ({
            let m = ready.decoder(size);
            &&& m.host == ready.stream.plan.host
            &&& m.stream_index == ready.stream.stream_index
            &&& m.active_hwaccel == ready.negotiated.active
            &&& m.src_width == size.0 && m.src_height == size.1
            &&& m.dst_width == ready.stream.plan.dst_width
            &&& m.dst_height == ready.stream.plan.dst_height
            &&& m.time_base == ready.stream.time_base
            &&& m.frame_rate == ready.stream.frame_rate
            &&& m.phase is Idle && !m.flushed && !m.drained
            &&& m.sws is None && m.rgba_size is None && m.upload_scratch.len() == 0
        }),
{
}

/// On an Apple host, a video whose codec names VideoToolbox and takes a device
/// context, with whatever other methods, is decoded on VideoToolbox wherever
/// the choice was left open or it was asked for and the device can be created.
pub proof fn law_apple_hosts_use_videotoolbox(
    dst_width: u32,
    dst_height: u32,
    hwaccel: HwAccel,
    host: Host,
    work: OpenWork,
    at: int,
)
    requires
        hwaccel == HwAccel::VideoToolbox || (hwaccel == HwAccel::Auto && host.apple),
        video_opens(work),
        work.context->Ok_0.configs is Some,
        0 <= at < work.context->Ok_0.configs->0@.len(),
        work.context->Ok_0.configs->0@[at].methods & 0x01i32 != 0,
        work.context->Ok_0.configs->0@[at].device_type is VideoToolbox,
        work.device_status >= 0,
        work.device_present,
    ensures
        open_outcome(open_plan(dst_width, dst_height, hwaccel, host), work) matches Ok(m)
            && m.active_hwaccel is VideoToolbox,
{
    let stream = open_plan(dst_width, dst_height, hwaccel, host).after_input(work.input)->Ok_0;
    law_codec_set_up(stream, work.context);
    law_device_answer(stream, work.device_status, work.device_present);
}

/// A video is open exactly where its codec is, whatever size that reports; where
/// it could not be opened FFmpeg's error is passed on.
pub proof fn law_opening_ends_with_the_codec(
    ready: ReadyPlan,
    opened: Result<(u32, u32), FfmpegError>,
)
    ensures
        opened matches Ok(size) ==> ready.after_opened(opened) == Ok::<DecoderModel, DecoderError>(
            ready.decoder(size),
        ),
        opened matches Err(err) ==> ready.after_opened(opened) == Err::<DecoderModel, DecoderError>(
            DecoderError::Ffmpeg(err),
        ),
{
}

} // verus!
