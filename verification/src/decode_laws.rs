//! What holds of whole decode calls, and of a decoder from call to call.
//!
//! A call is told as its start and the replies to what it asked for, in order.

use crate::decoder::{
    eof_of, fresh_decoder, phase_expects, target_supported, Call, DecodeOutcome, DecoderModel,
    FrameInfo, FrameSource, HwDecodeOutcome, Phase, Progress, Reply, Request, ScaleFilter,
    ScalerConfig, Step, TargetTexture,
};
use crate::error::DecoderError;
use crate::hw_textures::HwFrameTextures;
use crate::hwaccel::ActiveHwAccel;
use crate::media::{FfmpegError, FfmpegErrorKind, Host, PixelFormat, Rational};
use crate::upload::{
    law_each_channel_keeps_its_place, law_upload_fills_the_texture, upload_bytes,
};
use vstd::prelude::*;

verus! {

/// Where a call has come to after the given replies.
pub open spec fn run(start: Step, replies: Seq<Reply>) -> Step
    decreases replies.len(),
{
    if replies.len() == 0 {
        start
    } else {
        run(start, replies.drop_last()).0.step(replies.last())
    }
}

/// Whether each reply answers what the call asked for before it.
pub open spec fn answered(start: Step, replies: Seq<Reply>) -> bool
    decreases replies.len(),
{
    replies.len() > 0 ==> {
        &&& answered(start, replies.drop_last())
        &&& phase_expects(run(start, replies.drop_last()).0.phase, replies.last())
    }
}

/// The frames that the codec returned, in order.
pub open spec fn frames(replies: Seq<Reply>) -> Seq<FrameInfo>
    decreases replies.len(),
{
    if replies.len() == 0 {
        Seq::empty()
    } else {
        match replies.last() {
            Reply::Received(Ok(frame)) => frames(replies.drop_last()).push(frame),
            _ => frames(replies.drop_last()),
        }
    }
}

/// The timestamp of the frame that a phase works on, where it works on one.
pub open spec fn frame_of(phase: Phase) -> Option<Option<i64>> {
    match phase {
        Phase::Transferring { pts } => Some(pts),
        Phase::BuildingScaler { pts, .. } => Some(pts),
        Phase::Scaling { pts, .. } => Some(pts),
        Phase::Uploading { pts } => Some(pts),
        Phase::Extracting { pts } => Some(pts),
        _ => None,
    }
}

/// Whether a phase belongs to a call of the given kind.
pub open spec fn phase_of(phase: Phase, call: Call) -> bool {
    match phase {
        Phase::Idle => true,
        Phase::Receiving { call: c } => c == call,
        Phase::Reading { call: c } => c == call,
        Phase::SendingPacket { call: c } => c == call,
        Phase::SendingEof { call: c } => c == call,
        Phase::Extracting { .. } => call == Call::Hardware,
        _ => call == Call::Software,
    }
}

/// Whether a request is what a phase waits for.
pub open spec fn waits_for(phase: Phase, request: Request) -> bool {
    match request {
        Request::ReceiveFrame => phase is Receiving,
        Request::ReadPacket => phase is Reading,
        Request::SendPacket => phase is SendingPacket,
        Request::SendEof => phase is SendingEof,
        Request::TransferFrame => phase is Transferring,
        Request::BuildScaler(config) => phase matches Phase::BuildingScaler { config: c, .. } && c
            == config,
        Request::RunScaler(_) => phase is Scaling,
        Request::Upload => phase is Uploading,
        Request::ExtractTextures => phase is Extracting,
    }
}

/// Whether a request is about the packets of the input.
pub open spec fn handles_packets(request: Request) -> bool {
    request == Request::ReadPacket || request == Request::SendPacket || request
        == Request::SendEof
}

/// Whether a request touches pixels on the CPU.
pub open spec fn touches_pixels(request: Request) -> bool {
    match request {
        Request::TransferFrame => true,
        Request::BuildScaler(_) => true,
        Request::RunScaler(_) => true,
        Request::Upload => true,
        _ => false,
    }
}

/// What holds in the course of a call of the given kind, once `seen` frames
/// were returned by the codec.
pub open spec fn on_course(step: Step, call: Call, seen: Seq<FrameInfo>) -> bool {
    &&& phase_of(step.0.phase, call)
    &&& match step.1 {
        Ok(Progress::Ask(request)) => {
            &&& waits_for(step.0.phase, request)
            &&& match frame_of(step.0.phase) {
                Some(pts) => seen.len() == 1 && seen[0].pts == pts,
                None => seen.len() == 0,
            }
        },
        Ok(Progress::Decoded(DecodeOutcome::Frame { pts })) => {
            &&& call == Call::Software
            &&& step.0.phase is Idle
            &&& seen.len() == 1 && seen[0].pts == pts
        },
        Ok(Progress::DecodedHw(HwDecodeOutcome::Frame { pts, .. })) => {
            &&& call == Call::Hardware
            &&& step.0.phase is Idle
            &&& seen.len() == 1 && seen[0].pts == pts
        },
        Ok(progress) => {
            &&& progress == eof_of(call)
            &&& step.0.phase is Idle
            &&& step.0.drained
            &&& seen.len() == 0
        },
        Err(_) => step.0.phase is Idle,
    }
}

/// A call stays on course with every reply.
proof fn lemma_on_course(start: Step, call: Call, replies: Seq<Reply>)
    requires
        on_course(start, call, Seq::empty()),
        answered(start, replies),
    ensures
        on_course(run(start, replies), call, frames(replies)),
    decreases replies.len(),
{
    if replies.len() > 0 {
        lemma_on_course(start, call, replies.drop_last());
    }
}

/// A call to [`crate::decoder::VideoDecoder::decode_next`] that returns a frame
/// has received exactly one frame from the codec, and returns that frame's
/// timestamp. One that reports the end of the stream has received none, and
/// leaves the decoder drained. So no frame is lost between calls.
pub proof fn law_one_frame_per_call(m: DecoderModel, target: TargetTexture, replies: Seq<Reply>)
    requires
        m.phase is Idle,
        answered(m.begin(target), replies),
    ensures
        match run(m.begin(target), replies).1 {
            Ok(Progress::Ask(_)) => true,
            Ok(Progress::Decoded(DecodeOutcome::Frame { pts })) => frames(replies).len() == 1
                && frames(replies)[0].pts == pts,
            Ok(Progress::Decoded(DecodeOutcome::Eof)) => frames(replies).len() == 0 && run(
                m.begin(target),
                replies,
            ).0.drained,
            Ok(Progress::DecodedHw(_)) => false,
            Err(_) => true,
        },
{
    lemma_on_course(m.begin(target), Call::Software, replies);
}

/// The uploads that were made.
pub open spec fn uploads(replies: Seq<Reply>) -> nat
    decreases replies.len(),
{
    if replies.len() == 0 {
        0
    } else {
        uploads(replies.drop_last()) + if replies.last() is Uploaded {
            1nat
        } else {
            0nat
        }
    }
}

/// A call that returns a frame has uploaded once, as the last thing that it
/// did. One that reports the end of the stream or an error has uploaded
/// nothing, and neither does a call that returns hardware textures.
pub proof fn law_one_upload_per_frame(m: DecoderModel, call: DecodeCall)
    requires
        m.phase is Idle,
        answered(start_of(m, call), call.replies),
    ensures
        match run(start_of(m, call), call.replies).1 {
            Ok(Progress::Decoded(DecodeOutcome::Frame { .. })) => uploads(call.replies) == 1
                && call.replies.last() is Uploaded,
            _ => uploads(call.replies) == 0,
        },
{
    lemma_uploads(start_of(m, call), kind_of(call), call.replies);
}

proof fn lemma_uploads(start: Step, call: Call, replies: Seq<Reply>)
    requires
        on_course(start, call, Seq::empty()),
        answered(start, replies),
    ensures
        match run(start, replies).1 {
            Ok(Progress::Decoded(DecodeOutcome::Frame { .. })) => uploads(replies) == 1
                && replies.last() is Uploaded,
            _ => uploads(replies) == 0,
        },
    decreases replies.len(),
{
    if replies.len() > 0 {
        lemma_on_course(start, call, replies.drop_last());
        lemma_uploads(start, call, replies.drop_last());
    }
}

/// A call to [`crate::decoder::VideoDecoder::decode_next_hw`] that returns a
/// frame has received exactly one from the codec, which lies on the hardware,
/// and returns its timestamp. One that reports the end of the stream has
/// received none, and leaves the decoder drained.
pub proof fn law_one_frame_per_hw_call(m: DecoderModel, replies: Seq<Reply>)
    requires
        m.phase is Idle,
        answered(m.begin_hw(), replies),
    ensures
        match run(m.begin_hw(), replies).1 {
            Ok(Progress::Ask(_)) => true,
            Ok(Progress::DecodedHw(HwDecodeOutcome::Frame { pts, .. })) => frames(replies).len()
                == 1 && frames(replies)[0].pts == pts && frames(replies)[0].format
                == PixelFormat::VideoToolbox,
            Ok(Progress::DecodedHw(HwDecodeOutcome::Eof)) => frames(replies).len() == 0 && run(
                m.begin_hw(),
                replies,
            ).0.drained,
            Ok(Progress::Decoded(_)) => false,
            Err(_) => true,
        },
{
    lemma_on_course(m.begin_hw(), Call::Hardware, replies);
    lemma_hw_format(m.begin_hw(), replies);
}

/// The textures of a hardware call are made of VideoToolbox frames only.
proof fn lemma_hw_format(start: Step, replies: Seq<Reply>)
    requires
        on_course(start, Call::Hardware, Seq::empty()),
        answered(start, replies),
    ensures
        (run(start, replies).0.phase is Extracting || (run(start, replies).1 matches Ok(
            Progress::DecodedHw(HwDecodeOutcome::Frame { .. }),
        ))) ==> frames(replies).len() == 1 && frames(replies)[0].format
            == PixelFormat::VideoToolbox,
    decreases replies.len(),
{
    lemma_on_course(start, Call::Hardware, replies);
    if replies.len() > 0 {
        lemma_on_course(start, Call::Hardware, replies.drop_last());
        lemma_hw_format(start, replies.drop_last());
    }
}

/// One decode call: what it is, and the replies to what it asked for.
pub struct DecodeCall {
    /// The target of an upload; a hardware call has none.
    pub target: Option<TargetTexture>,
    pub replies: Seq<Reply>,
}

/// Which of the two calls it is.
pub open spec fn kind_of(call: DecodeCall) -> Call {
    match call.target {
        Some(_) => Call::Software,
        None => Call::Hardware,
    }
}

/// The start of a call.
pub open spec fn start_of(m: DecoderModel, call: DecodeCall) -> Step {
    match call.target {
        Some(target) => m.begin(target),
        None => m.begin_hw(),
    }
}

/// The state of a decoder after a number of calls.
pub open spec fn after_calls(m: DecoderModel, calls: Seq<DecodeCall>) -> DecoderModel
    decreases calls.len(),
{
    if calls.len() == 0 {
        m
    } else {
        let before = after_calls(m, calls.drop_last());
        run(start_of(before, calls.last()), calls.last().replies).0
    }
}

/// What the last of a number of calls came to.
pub open spec fn last_call(m: DecoderModel, calls: Seq<DecodeCall>) -> Step
    recommends
        calls.len() > 0,
{
    run(start_of(after_calls(m, calls.drop_last()), calls.last()), calls.last().replies)
}

/// Whether every call was answered and ended without an error.
pub open spec fn all_succeed(m: DecoderModel, calls: Seq<DecodeCall>) -> bool
    decreases calls.len(),
{
    calls.len() > 0 ==> {
        &&& all_succeed(m, calls.drop_last())
        &&& answered(
            start_of(after_calls(m, calls.drop_last()), calls.last()),
            calls.last().replies,
        )
        &&& last_call(m, calls).1 is Ok
        &&& !(last_call(m, calls).1 matches Ok(Progress::Ask(_)))
    }
}

/// The timestamps of the frames that the calls returned, in order.
pub open spec fn returned(m: DecoderModel, calls: Seq<DecodeCall>) -> Seq<Option<i64>>
    decreases calls.len(),
{
    if calls.len() == 0 {
        Seq::empty()
    } else {
        let before = returned(m, calls.drop_last());
        match last_call(m, calls).1 {
            Ok(Progress::Decoded(DecodeOutcome::Frame { pts })) => before.push(pts),
            Ok(Progress::DecodedHw(HwDecodeOutcome::Frame { pts, .. })) => before.push(pts),
            _ => before,
        }
    }
}

/// The timestamps of the frames that the codec returned during the calls, in
/// order.
pub open spec fn decoded(calls: Seq<DecodeCall>) -> Seq<Option<i64>>
    decreases calls.len(),
{
    if calls.len() == 0 {
        Seq::empty()
    } else {
        decoded(calls.drop_last()) + frames(calls.last().replies).map_values(
            |frame: FrameInfo| frame.pts,
        )
    }
}

/// Call after call, of either kind, the decoder returns the frames of the
/// codec: all of them, each once and in order, as long as no call ends with an
/// error.
pub proof fn law_frames_in_order(m: DecoderModel, calls: Seq<DecodeCall>)
    requires
        m.phase is Idle,
        all_succeed(m, calls),
    ensures
        returned(m, calls) == decoded(calls),
        after_calls(m, calls).phase is Idle,
    decreases calls.len(),
{
    if calls.len() > 0 {
        law_frames_in_order(m, calls.drop_last());
        let before = after_calls(m, calls.drop_last());
        let call = calls.last();
        lemma_on_course(start_of(before, call), kind_of(call), call.replies);
        assert(returned(m, calls) =~= decoded(calls));
    }
}

/// A hardware call never touches pixels on the CPU: it asks for no transfer, no
/// scaling and no upload.
pub proof fn law_hw_call_is_zero_copy(m: DecoderModel, replies: Seq<Reply>)
    requires
        m.phase is Idle,
        answered(m.begin_hw(), replies),
    ensures
        run(m.begin_hw(), replies).1 matches Ok(Progress::Ask(request)) ==> !touches_pixels(
            request,
        ),
{
    lemma_on_course(m.begin_hw(), Call::Hardware, replies);
}

/// Whether a reply is one to such a request.
pub open spec fn answers(reply: Reply, request: Request) -> bool {
    match request {
        Request::ReceiveFrame => reply is Received,
        Request::ReadPacket => reply is PacketRead,
        Request::SendPacket => reply is PacketSent,
        Request::SendEof => reply is EofSent,
        Request::TransferFrame => reply is Transferred,
        Request::BuildScaler(_) => reply is ScalerBuilt,
        Request::RunScaler(_) => reply is Scaled,
        Request::Upload => reply is Uploaded,
        Request::ExtractTextures => reply is Extracted,
    }
}

/// A call waits for what it asked for: it can be resumed with a reply if and
/// only if that is one to its last request.
pub proof fn law_answers_are_expected(m: DecoderModel, call: DecodeCall, reply: Reply)
    requires
        m.phase is Idle,
        answered(start_of(m, call), call.replies),
    ensures
        match run(start_of(m, call), call.replies).1 {
            Ok(Progress::Ask(request)) => phase_expects(
                run(start_of(m, call), call.replies).0.phase,
                reply,
            ) <==> answers(reply, request),
            _ => !phase_expects(run(start_of(m, call), call.replies).0.phase, reply),
        },
{
    lemma_on_course(start_of(m, call), kind_of(call), call.replies);
}

/// A decoder that decodes in software never asks for work on the hardware, so
/// it works on any host.
pub proof fn law_software_needs_no_hardware(m: DecoderModel, call: DecodeCall)
    requires
        m.valid(),
        m.phase is Idle,
        m.active_hwaccel == ActiveHwAccel::Software,
        answered(start_of(m, call), call.replies),
    ensures
        run(start_of(m, call), call.replies).1 matches Ok(Progress::Ask(request)) ==> request
            != Request::TransferFrame && request != Request::ExtractTextures,
{
    lemma_run_keeps(start_of(m, call), call.replies);
    lemma_on_course(start_of(m, call), kind_of(call), call.replies);
}

/// What no call ever changes: the stream, its metadata and the negotiated
/// hardware.
pub open spec fn same_stream(a: DecoderModel, b: DecoderModel) -> bool {
    &&& a.host == b.host
    &&& a.stream_index == b.stream_index
    &&& a.active_hwaccel == b.active_hwaccel
    &&& a.src_width == b.src_width
    &&& a.src_height == b.src_height
    &&& a.time_base == b.time_base
    &&& a.frame_rate == b.frame_rate
}

proof fn lemma_run_keeps(start: Step, replies: Seq<Reply>)
    requires
        start.0.valid(),
        answered(start, replies),
    ensures
        run(start, replies).0.valid(),
        same_stream(start.0, run(start, replies).0),
        run(start, replies).0.dst_width == start.0.dst_width,
        run(start, replies).0.dst_height == start.0.dst_height,
        start.0.flushed ==> run(start, replies).0.flushed,
        start.0.drained ==> run(start, replies).0.drained,
    decreases replies.len(),
{
    if replies.len() > 0 {
        lemma_run_keeps(start, replies.drop_last());
        law_step_keeps(run(start, replies.drop_last()).0, replies.last());
    }
}

/// A decoder is valid when it is opened.
pub proof fn law_fresh_is_valid(
    host: Host,
    stream_index: usize,
    active: ActiveHwAccel,
    src: (u32, u32),
    dst: (u32, u32),
    time_base: Rational,
    frame_rate: Option<Rational>,
)
    ensures
        fresh_decoder(host, stream_index, active, src, dst, time_base, frame_rate).valid(),
{
}

/// Each call and each reply keep a decoder valid.
pub proof fn law_always_valid(m: DecoderModel, target: TargetTexture, reply: Reply)
    requires
        m.valid(),
    ensures
        m.begin(target).0.valid(),
        m.begin_hw().0.valid(),
        phase_expects(m.phase, reply) ==> m.step(reply).0.valid(),
{
}

/// No reply changes the stream, its metadata or the target's size, and neither
/// the flushed nor the drained state is ever left.
pub proof fn law_step_keeps(m: DecoderModel, reply: Reply)
    requires
        m.valid(),
        phase_expects(m.phase, reply),
    ensures
        m.step(reply).0.valid(),
        same_stream(m, m.step(reply).0),
        m.step(reply).0.dst_width == m.dst_width,
        m.step(reply).0.dst_height == m.dst_height,
        m.flushed ==> m.step(reply).0.flushed,
        m.drained ==> m.step(reply).0.drained,
{
}

/// The start of a call changes neither the stream nor its metadata, nor how far
/// the stream was read.
pub proof fn law_begin_keeps(m: DecoderModel, target: TargetTexture)
    ensures
        same_stream(m, m.begin(target).0),
        m.begin(target).0.flushed == m.flushed,
        m.begin(target).0.drained == m.drained,
        m.begin_hw().0 == (DecoderModel { phase: m.begin_hw().0.phase, ..m }),
{
}

/// A call that is refused changes nothing: neither one on a texture of an
/// unsupported format, nor a hardware call without VideoToolbox.
pub proof fn law_refused_call_changes_nothing(m: DecoderModel, target: TargetTexture)
    ensures
        !target_supported(target.format) ==> m.begin(target) == (
            m,
            Err::<Progress, DecoderError>(
                DecoderError::UnsupportedTextureFormat { format: target.format },
            ),
        ),
        m.active_hwaccel != ActiveHwAccel::VideoToolbox ==> m.begin_hw() == (
            m,
            Err::<Progress, DecoderError>(DecoderError::HwAccelNotActive(m.active_hwaccel)),
        ),
{
}

/// All that a call on an accepted texture scales and uploads has the size of
/// that texture, whatever size was decoded before: each scaler that it builds
/// or runs writes RGBA frames of that size, and the frame that it uploads has
/// that size.
pub proof fn law_frames_fit_target(m: DecoderModel, target: TargetTexture, replies: Seq<Reply>)
    requires
        m.valid(),
        m.phase is Idle,
        target_supported(target.format),
        answered(m.begin(target), replies),
    ensures
        ({
            let now = run(m.begin(target), replies);
            &&& now.0.dst_width == target.width && now.0.dst_height == target.height
            &&& match now.1 {
                Ok(Progress::Ask(Request::BuildScaler(config))) => config.dst_format
                    == PixelFormat::Rgba && config.dst_width == target.width && config.dst_height
                    == target.height,
                Ok(Progress::Ask(Request::RunScaler(_))) => now.0.sws matches Some(config)
                    && config.dst_format == PixelFormat::Rgba && config.dst_width == target.width
                    && config.dst_height == target.height,
                Ok(Progress::Ask(Request::Upload)) => now.0.rgba_size == Some(
                    (target.width, target.height),
                ),
                _ => true,
            }
        }),
{
    lemma_run_keeps(m.begin(target), replies);
    lemma_on_course(m.begin(target), Call::Software, replies);
}

/// The frame in CPU memory that a call has come to last: as the codec returned
/// it, or as it was copied from the hardware.
pub open spec fn cpu_frame(replies: Seq<Reply>) -> Option<FrameInfo>
    decreases replies.len(),
{
    if replies.len() == 0 {
        None
    } else {
        match replies.last() {
            Reply::Received(Ok(frame)) => Some(frame),
            Reply::Transferred { copy, .. } => Some(copy),
            _ => cpu_frame(replies.drop_last()),
        }
    }
}

/// Whether the scaler that a call builds or runs is one for its frame.
pub open spec fn scales_own_frame(step: Step, frame: Option<FrameInfo>) -> bool {
    match step.0.phase {
        Phase::BuildingScaler { config, .. } => frame matches Some(frame) && config
            == step.0.config_for(frame),
        Phase::Scaling { config, .. } => frame matches Some(frame) && config
            == step.0.config_for(frame),
        _ => true,
    }
}

proof fn lemma_scales_own_frame(start: Step, replies: Seq<Reply>)
    requires
        start.0.valid(),
        start.0.phase is Idle || start.0.phase is Receiving,
        answered(start, replies),
    ensures
        scales_own_frame(run(start, replies), cpu_frame(replies)),
    decreases replies.len(),
{
    lemma_run_keeps(start, replies);
    if replies.len() > 0 {
        lemma_run_keeps(start, replies.drop_last());
        lemma_scales_own_frame(start, replies.drop_last());
    }
}

/// The scaler is only ever run on frames of the format and size that it was
/// built for, and into an RGBA frame that is empty or has the size that it
/// writes.
pub proof fn law_scaler_matches(m: DecoderModel, target: TargetTexture, replies: Seq<Reply>)
    requires
        m.valid(),
        m.phase is Idle,
        answered(m.begin(target), replies),
    ensures
        ({
            let now = run(m.begin(target), replies);
            now.1 matches Ok(Progress::Ask(Request::RunScaler(_))) ==> {
                &&& cpu_frame(replies) is Some
                &&& now.0.sws == Some(now.0.config_for(cpu_frame(replies)->0))
                &&& now.0.rgba_size is None || now.0.rgba_size == Some(
                    (now.0.dst_width, now.0.dst_height),
                )
            }
        }),
{
    lemma_run_keeps(m.begin(target), replies);
    lemma_on_course(m.begin(target), Call::Software, replies);
    lemma_scales_own_frame(m.begin(target), replies);
}

/// A second frame of the same format and size, for a texture of the same size,
/// is scaled by the scaler that scaled the first.
pub proof fn law_scaler_is_reused(
    m: DecoderModel,
    target: TargetTexture,
    pts: Option<i64>,
    source: FrameSource,
    frame: FrameInfo,
)
    requires
        target_supported(target.format),
        m.sws == Some(m.config_for(frame)),
        target.width == m.dst_width && target.height == m.dst_height,
    ensures
        m.begin(target).0.scale_from(pts, source, frame).1 == Ok::<Progress, DecoderError>(
            Progress::Ask(Request::RunScaler(source)),
        ),
        m.begin(target).0.scale_from(pts, source, frame).0.sws == m.sws,
{
}

/// A texture of another size drops the scaler, so that the next frame is scaled
/// by a new one.
pub proof fn law_resize_rebuilds(
    m: DecoderModel,
    target: TargetTexture,
    pts: Option<i64>,
    source: FrameSource,
    frame: FrameInfo,
)
    requires
        target_supported(target.format),
        target.width != m.dst_width || target.height != m.dst_height,
    ensures
        m.begin(target).0.sws is None,
        m.begin(target).0.rgba_size is None,
        m.begin(target).0.scale_from(pts, source, frame).1 == Ok::<Progress, DecoderError>(
            Progress::Ask(Request::BuildScaler(m.begin(target).0.config_for(frame))),
        ),
{
}

/// A packet is sent to the codec if and only if it was just read and belongs to
/// the decoded stream; packets of other streams are skipped. The end of the
/// stream is sent if and only if the demuxer just reported it.
pub proof fn law_only_own_packets(m: DecoderModel, reply: Reply)
    requires
        phase_expects(m.phase, reply),
    ensures
        m.step(reply).1 == Ok::<Progress, DecoderError>(Progress::Ask(Request::SendPacket))
            <==> reply == Reply::PacketRead(Ok::<usize, FfmpegError>(m.stream_index)),
        m.step(reply).1 == Ok::<Progress, DecoderError>(Progress::Ask(Request::SendEof)) <==> (
        reply matches Reply::PacketRead(Err(err)) && err.end()),
        reply matches Reply::PacketRead(Ok(stream)) && stream != m.stream_index ==> m.step(reply)
            == (m, Ok::<Progress, DecoderError>(Progress::Ask(Request::ReadPacket))),
{
}

/// Once the codec was told of the end of the stream the call reads and sends no
/// packet any more.
pub proof fn law_no_packets_after_flush(m: DecoderModel, reply: Reply)
    requires
        m.valid(),
        m.flushed,
        phase_expects(m.phase, reply),
    ensures
        m.step(reply).0.flushed,
        m.step(reply).1 matches Ok(Progress::Ask(request)) ==> !handles_packets(request),
{
}

/// Nor does any later call, and the decoder stays flushed.
pub proof fn law_no_packets_in_later_calls(m: DecoderModel, call: DecodeCall)
    requires
        m.valid(),
        m.phase is Idle,
        m.flushed,
        answered(start_of(m, call), call.replies),
    ensures
        run(start_of(m, call), call.replies).0.flushed,
        run(start_of(m, call), call.replies).0.valid(),
        run(start_of(m, call), call.replies).1 matches Ok(Progress::Ask(request))
            ==> !handles_packets(request),
{
    lemma_run_keeps(start_of(m, call), call.replies);
    lemma_on_course(start_of(m, call), kind_of(call), call.replies);
}

/// Once the codec was flushed, feeding it changes nothing and neither reads nor
/// sends anything: the codec is asked for a frame again.
pub proof fn law_flushed_pump_changes_nothing(m: DecoderModel, call: Call)
    requires
        m.flushed,
        m.phase == (Phase::Receiving { call }),
    ensures
        m.pump(call) == (m, Ok::<Progress, DecoderError>(Progress::Ask(Request::ReceiveFrame))),
{
}

/// Whether packets were read, none of which belongs to the given stream.
pub open spec fn other_packets(replies: Seq<Reply>, stream_index: usize) -> bool {
    forall|i: int|
        0 <= i < replies.len() ==> (#[trigger] replies[i] matches Reply::PacketRead(Ok(stream))
            && stream != stream_index)
}

/// However many packets of other streams come first, feeding the codec skips
/// them all, without a change to the decoder.
pub proof fn law_pump_skips_other_streams(m: DecoderModel, call: Call, skipped: Seq<Reply>)
    requires
        !m.flushed,
        other_packets(skipped, m.stream_index),
    ensures
        answered(m.pump(call), skipped),
        run(m.pump(call), skipped) == m.pump(call),
    decreases skipped.len(),
{
    if skipped.len() > 0 {
        assert forall|i: int| 0 <= i < skipped.drop_last().len() implies (
        #[trigger] skipped.drop_last()[i] matches Reply::PacketRead(Ok(stream)) && stream
            != m.stream_index) by {
            assert(skipped.drop_last()[i] == skipped[i]);
        }
        law_pump_skips_other_streams(m, call, skipped.drop_last());
        assert(skipped.last() == skipped[skipped.len() - 1]);
    }
}

/// Where the input ends before a packet of the decoded stream, feeding the
/// codec asks to send the end of the stream, once. Where that succeeds the
/// codec is flushed and is asked for a frame again; where it fails the call
/// ends with FFmpeg's error, and the codec is not flushed.
pub proof fn law_pump_flushes_at_end(
    m: DecoderModel,
    call: Call,
    skipped: Seq<Reply>,
    end: FfmpegError,
    sent: Result<(), FfmpegError>,
)
    requires
        !m.flushed,
        other_packets(skipped, m.stream_index),
        end.end(),
    ensures
        ({
            let at_end = skipped.push(Reply::PacketRead(Err(end)));
            let replies = at_end.push(Reply::EofSent(sent));
            &&& answered(m.pump(call), replies)
            &&& run(m.pump(call), at_end) == m.ask(Phase::SendingEof { call }, Request::SendEof)
            &&& match sent {
                Ok(_) => run(m.pump(call), replies) == DecoderModel { flushed: true, ..m }.receive(
                    call,
                ),
                Err(err) => {
                    &&& run(m.pump(call), replies) == m.fail(DecoderError::Ffmpeg(err))
                    &&& !run(m.pump(call), replies).0.flushed
                },
            }
        }),
{
    let at_end = skipped.push(Reply::PacketRead(Err(end)));
    let replies = at_end.push(Reply::EofSent(sent));
    law_pump_skips_other_streams(m, call, skipped);
    assert(at_end.drop_last() =~= skipped);
    assert(replies.drop_last() =~= at_end);
    assert(run(m.pump(call), at_end) == m.pump(call).0.step(at_end.last()));
    assert(answered(m.pump(call), at_end));
}

/// Where a packet of the decoded stream comes first, feeding the codec sends
/// it, and the codec is asked for a frame again; where that fails the call ends
/// with FFmpeg's error. The codec is not flushed.
pub proof fn law_pump_sends_own_packet(
    m: DecoderModel,
    call: Call,
    skipped: Seq<Reply>,
    sent: Result<(), FfmpegError>,
)
    requires
        !m.flushed,
        other_packets(skipped, m.stream_index),
    ensures
        ({
            let read = skipped.push(Reply::PacketRead(Ok(m.stream_index)));
            let replies = read.push(Reply::PacketSent(sent));
            &&& answered(m.pump(call), replies)
            &&& run(m.pump(call), read) == m.ask(
                Phase::SendingPacket { call },
                Request::SendPacket,
            )
            &&& match sent {
                Ok(_) => run(m.pump(call), replies) == m.receive(call),
                Err(err) => run(m.pump(call), replies) == m.fail(DecoderError::Ffmpeg(err)),
            }
        }),
{
    let read = skipped.push(Reply::PacketRead(Ok(m.stream_index)));
    let replies = read.push(Reply::PacketSent(sent));
    law_pump_skips_other_streams(m, call, skipped);
    assert(read.drop_last() =~= skipped);
    assert(replies.drop_last() =~= read);
    assert(run(m.pump(call), read) == m.pump(call).0.step(read.last()));
    assert(answered(m.pump(call), read));
}

/// Whether each reply answers what its call asked for. A call may end with an
/// error, or be given up.
pub open spec fn all_answered(m: DecoderModel, calls: Seq<DecodeCall>) -> bool
    decreases calls.len(),
{
    calls.len() > 0 ==> {
        &&& all_answered(m, calls.drop_last())
        &&& answered(
            start_of(after_calls(m, calls.drop_last()), calls.last()),
            calls.last().replies,
        )
    }
}

/// How often the end of the stream was sent with success.
pub open spec fn flushes(replies: Seq<Reply>) -> nat
    decreases replies.len(),
{
    if replies.len() == 0 {
        0
    } else {
        flushes(replies.drop_last()) + if replies.last() matches Reply::EofSent(Ok(_)) {
            1nat
        } else {
            0nat
        }
    }
}

/// How often it was during a number of calls.
pub open spec fn all_flushes(calls: Seq<DecodeCall>) -> nat
    decreases calls.len(),
{
    if calls.len() == 0 {
        0
    } else {
        all_flushes(calls.drop_last()) + flushes(calls.last().replies)
    }
}

/// One for a decoder whose codec was flushed.
pub open spec fn flushed_count(m: DecoderModel) -> nat {
    if m.flushed {
        1
    } else {
        0
    }
}

proof fn lemma_flushes(start: Step, replies: Seq<Reply>)
    requires
        start.0.valid(),
        answered(start, replies),
    ensures
        flushed_count(run(start, replies).0) == flushed_count(start.0) + flushes(replies),
    decreases replies.len(),
{
    if replies.len() > 0 {
        lemma_run_keeps(start, replies.drop_last());
        lemma_flushes(start, replies.drop_last());
    }
}

/// Whatever the calls and what came of them, the end of the stream is sent with
/// success at most once in the life of a decoder, and the decoder is flushed if
/// and only if it was: the flushed state is entered in no other way, and never
/// left.
pub proof fn law_flushed_at_most_once(m: DecoderModel, calls: Seq<DecodeCall>)
    requires
        m.valid(),
        all_answered(m, calls),
    ensures
        after_calls(m, calls).valid(),
        flushed_count(after_calls(m, calls)) == flushed_count(m) + all_flushes(calls),
        all_flushes(calls) <= 1,
        m.flushed ==> after_calls(m, calls).flushed && all_flushes(calls) == 0,
    decreases calls.len(),
{
    if calls.len() > 0 {
        law_flushed_at_most_once(m, calls.drop_last());
        let before = after_calls(m, calls.drop_last());
        lemma_run_keeps(start_of(before, calls.last()), calls.last().replies);
        lemma_flushes(start_of(before, calls.last()), calls.last().replies);
    }
}

/// Once the codec is drained, a call ends with the end of the stream as soon as
/// the codec has no frame for it, and changes nothing but the size of the
/// target.
pub proof fn law_eof_is_final(m: DecoderModel, target: TargetTexture, err: FfmpegError)
    requires
        m.phase is Idle,
        m.drained,
        err.again(m.host) || err.end(),
    ensures
        target_supported(target.format) ==> run(
            m.begin(target),
            seq![Reply::Received(Err(err))],
        ) == (
            m.resized(target.width, target.height),
            Ok::<Progress, DecoderError>(Progress::Decoded(DecodeOutcome::Eof)),
        ),
        m.active_hwaccel == ActiveHwAccel::VideoToolbox ==> run(
            m.begin_hw(),
            seq![Reply::Received(Err(err))],
        ) == (m, Ok::<Progress, DecoderError>(Progress::DecodedHw(HwDecodeOutcome::Eof))),
{
    let replies = seq![Reply::Received(Err(err))];
    assert(replies.drop_last() =~= Seq::empty());
    assert(run(m.begin(target), replies.drop_last()) == m.begin(target));
    assert(run(m.begin_hw(), replies.drop_last()) == m.begin_hw());
}

/// The error of an FFmpeg call that fails, where it is one that ends the decode
/// call: any but the codec's need for input and the end of the stream.
pub open spec fn ffmpeg_failure(reply: Reply, host: Host) -> Option<FfmpegError> {
    match reply {
        Reply::Received(Err(err)) => if err.again(host) || err.end() {
            None
        } else {
            Some(err)
        },
        Reply::PacketRead(Err(err)) => if err.end() {
            None
        } else {
            Some(err)
        },
        Reply::PacketSent(Err(err)) => Some(err),
        Reply::EofSent(Err(err)) => Some(err),
        Reply::ScalerBuilt(Err(err)) => Some(err),
        Reply::Scaled(Err(err)) => Some(err),
        _ => None,
    }
}

/// A failed FFmpeg call ends the decode call with FFmpeg's error, and an error
/// of FFmpeg comes out of a decode call in no other way. The decoder can be
/// called again after it.
pub proof fn law_ffmpeg_errors_surface(m: DecoderModel, reply: Reply)
    requires
        phase_expects(m.phase, reply),
    ensures
        ffmpeg_failure(reply, m.host) matches Some(err) ==> m.step(reply).1 == Err::<
            Progress,
            DecoderError,
        >(DecoderError::Ffmpeg(err)),
        m.step(reply).1 matches Err(DecoderError::Ffmpeg(err)) ==> ffmpeg_failure(reply, m.host)
            == Some(err) || reply == Reply::Extracted(
            Err::<HwFrameTextures, DecoderError>(DecoderError::Ffmpeg(err)),
        ),
        m.step(reply).1 is Err ==> m.step(reply).0.phase is Idle,
{
}

/// Whether a reply is the codec's report of the end of the stream.
pub open spec fn reports_end(reply: Reply) -> bool {
    reply matches Reply::Received(Err(err)) && err.kind is Eof
}

/// Whether the codec reported the end of the stream in one of the replies.
pub open spec fn end_reported(replies: Seq<Reply>) -> bool {
    exists|i: int| 0 <= i < replies.len() && reports_end(#[trigger] replies[i])
}

/// Whether it did in one of the calls.
pub open spec fn end_reported_in(calls: Seq<DecodeCall>) -> bool {
    exists|i: int| 0 <= i < calls.len() && end_reported((#[trigger] calls[i]).replies)
}

/// Whether a call has ended with the end of the stream.
pub open spec fn ended_with_eof(step: Step) -> bool {
    step.1 == Ok::<Progress, DecoderError>(Progress::Decoded(DecodeOutcome::Eof)) || step.1 == Ok::<
        Progress,
        DecoderError,
    >(Progress::DecodedHw(HwDecodeOutcome::Eof))
}

proof fn lemma_drained_by_end(start: Step, replies: Seq<Reply>)
    requires
        answered(start, replies),
    ensures
        run(start, replies).0.drained <==> start.0.drained || end_reported(replies),
    decreases replies.len(),
{
    if replies.len() > 0 {
        let earlier = replies.drop_last();
        lemma_drained_by_end(start, earlier);
        assert(replies.last() == replies[replies.len() - 1]);
        if end_reported(earlier) {
            let i = choose|i: int| 0 <= i < earlier.len() && reports_end(#[trigger] earlier[i]);
            assert(reports_end(replies[i]));
        }
        if end_reported(replies) {
            let i = choose|i: int| 0 <= i < replies.len() && reports_end(#[trigger] replies[i]);
            if i < earlier.len() {
                assert(reports_end(earlier[i]));
            }
        }
    }
}

/// A decoder is drained if and only if the codec itself reported the end of the
/// stream, in any of the calls so far, whatever else came of them. No frame, no
/// want of input, no error and no change of the target ever drains it.
pub proof fn law_drained_only_by_the_codec(m: DecoderModel, calls: Seq<DecodeCall>)
    requires
        all_answered(m, calls),
    ensures
        after_calls(m, calls).drained <==> m.drained || end_reported_in(calls),
    decreases calls.len(),
{
    if calls.len() > 0 {
        let earlier = calls.drop_last();
        law_drained_only_by_the_codec(m, earlier);
        let before = after_calls(m, earlier);
        lemma_drained_by_end(start_of(before, calls.last()), calls.last().replies);
        assert(calls.last() == calls[calls.len() - 1]);
        if end_reported_in(earlier) {
            let i = choose|i: int|
                0 <= i < earlier.len() && end_reported((#[trigger] earlier[i]).replies);
            assert(end_reported(calls[i].replies));
        }
        if end_reported_in(calls) {
            let i = choose|i: int|
                0 <= i < calls.len() && end_reported((#[trigger] calls[i]).replies);
            if i < earlier.len() {
                assert(end_reported(earlier[i].replies));
            }
        }
    }
}

/// A call ends with the end of the stream only if the codec itself reported it,
/// in this call or an earlier one.
pub proof fn law_eof_only_from_the_codec(m: DecoderModel, calls: Seq<DecodeCall>)
    requires
        calls.len() > 0,
        all_answered(m, calls),
        ended_with_eof(last_call(m, calls)),
    ensures
        m.drained || end_reported_in(calls),
{
    law_drained_only_by_the_codec(m, calls);
    let before = after_calls(m, calls.drop_last());
    let start = start_of(before, calls.last());
    let replies = calls.last().replies;
    if replies.len() > 0 {
        lemma_drained_by_end(start, replies);
    }
}

/// A codec that wants input gets the next packet: the call asks to read one,
/// and changes nothing else, unless the codec was flushed or is drained. That
/// does not depend on the scaler, the target, the frames before or the call.
pub proof fn law_again_reads_the_next_packet(m: DecoderModel, call: Call, err: FfmpegError)
    requires
        m.phase == (Phase::Receiving { call }),
        err.kind == (FfmpegErrorKind::Errno { errno: m.host.eagain }),
        !m.flushed,
        !m.drained,
    ensures
        m.step(Reply::Received(Err(err))) == (
            DecoderModel { phase: Phase::Reading { call }, ..m },
            Ok::<Progress, DecoderError>(Progress::Ask(Request::ReadPacket)),
        ),
{
}

/// A flushed codec that wants input is asked for a frame again, with nothing
/// changed, until it reports the end of the stream; a drained one has no more,
/// and the call ends.
pub proof fn law_again_without_input(m: DecoderModel, call: Call, err: FfmpegError)
    requires
        m.phase == (Phase::Receiving { call }),
        err.kind == (FfmpegErrorKind::Errno { errno: m.host.eagain }),
    ensures
        m.flushed && !m.drained ==> m.step(Reply::Received(Err(err))) == (
            m,
            Ok::<Progress, DecoderError>(Progress::Ask(Request::ReceiveFrame)),
        ),
        m.drained ==> ({
            let next = m.step(Reply::Received(Err(err)));
            &&& next.0 == (DecoderModel { phase: Phase::Idle, ..m })
            &&& ended_with_eof(next)
            &&& (next.1 matches Ok(Progress::Decoded(_))) <==> call == Call::Software
        }),
{
}

/// The codec's report of the end of the stream always ends the call, of either
/// kind, with that call's own end of the stream, and drains the decoder,
/// whether or not the codec was flushed; nothing else changes.
pub proof fn law_end_always_ends_the_call(m: DecoderModel, call: Call, err: FfmpegError)
    requires
        m.phase == (Phase::Receiving { call }),
        err.kind is Eof,
    ensures
        m.step(Reply::Received(Err(err))).0 == (DecoderModel {
            phase: Phase::Idle,
            drained: true,
            ..m
        }),
        call == Call::Software ==> m.step(Reply::Received(Err(err))).1 == Ok::<
            Progress,
            DecoderError,
        >(Progress::Decoded(DecodeOutcome::Eof)),
        call == Call::Hardware ==> m.step(Reply::Received(Err(err))).1 == Ok::<
            Progress,
            DecoderError,
        >(Progress::DecodedHw(HwDecodeOutcome::Eof)),
{
}

/// Any other error of the codec ends the call with that error, and changes
/// nothing.
pub proof fn law_codec_errors_change_nothing(m: DecoderModel, call: Call, err: FfmpegError)
    requires
        m.phase == (Phase::Receiving { call }),
        !(err.kind is Eof),
        err.kind != (FfmpegErrorKind::Errno { errno: m.host.eagain }),
    ensures
        m.step(Reply::Received(Err(err))) == (
            DecoderModel { phase: Phase::Idle, ..m },
            Err::<Progress, DecoderError>(DecoderError::Ffmpeg(err)),
        ),
{
}

/// What a call for hardware textures does with a frame depends on its format
/// alone: a VideoToolbox frame has its textures made, and is returned with its
/// own timestamp; any other is refused. Nothing else changes.
pub proof fn law_hw_call_takes_videotoolbox_frames(
    m: DecoderModel,
    frame: FrameInfo,
    made: Result<HwFrameTextures, DecoderError>,
)
    requires
        m.phase == (Phase::Receiving { call: Call::Hardware }),
    ensures
        ({
            let next = m.step(Reply::Received(Ok(frame)));
            let idle = DecoderModel { phase: Phase::Idle, ..m };
            &&& frame.format != PixelFormat::VideoToolbox ==> next == (
                idle,
                Err::<Progress, DecoderError>(
                    DecoderError::HwAccelNotActive(ActiveHwAccel::Software),
                ),
            )
            &&& frame.format == PixelFormat::VideoToolbox ==> {
                &&& next.1 == Ok::<Progress, DecoderError>(Progress::Ask(Request::ExtractTextures))
                &&& next.0.phase is Extracting
                &&& next.0 == (DecoderModel { phase: next.0.phase, ..m })
                &&& next.0.step(Reply::Extracted(made)) == (
                    idle,
                    match made {
                        Ok(textures) => Ok::<Progress, DecoderError>(
                            Progress::DecodedHw(
                                HwDecodeOutcome::Frame { textures, pts: frame.pts },
                            ),
                        ),
                        Err(err) => Err::<Progress, DecoderError>(err),
                    },
                )
            }
        }),
{
}

/// A call that uploads takes a frame to the CPU exactly where it is a
/// VideoToolbox frame of a decoder that decodes on VideoToolbox. A transfer
/// that fails ends the call with FFmpeg's status, and one that does not fail
/// scales the copy. Nothing else changes.
pub proof fn law_only_hardware_frames_are_transferred(
    m: DecoderModel,
    frame: FrameInfo,
    status: i32,
    copy: FrameInfo,
)
    requires
        m.phase == (Phase::Receiving { call: Call::Software }),
    ensures
        ({
            let next = m.step(Reply::Received(Ok(frame)));
            let after = next.0.step(Reply::Transferred { status, copy });
            let transfers = m.active_hwaccel == ActiveHwAccel::VideoToolbox && frame.format
                == PixelFormat::VideoToolbox;
            &&& next.1 == Ok::<Progress, DecoderError>(Progress::Ask(Request::TransferFrame))
                <==> transfers
            &&& next.0 == (DecoderModel { phase: next.0.phase, ..m })
            &&& !transfers ==> scales(next, m, frame.pts, FrameSource::Decoded, frame)
            &&& transfers ==> {
                &&& next.0.phase is Transferring
                &&& status < 0 ==> after == (
                    DecoderModel { phase: Phase::Idle, ..m },
                    Err::<Progress, DecoderError>(DecoderError::HwTransfer(status)),
                )
                &&& status >= 0 ==> scales(after, m, frame.pts, FrameSource::Transferred, copy)
            }
        }),
{
}

/// Whether a step of a call has come to scaling a frame in CPU memory to the
/// size of the target, where the decoder was `m`: with the scaler at hand if
/// and only if that was built from the frame's format and size to the target's
/// size, with a new one from and to just these otherwise. The frame's timestamp
/// is `pts`.
pub open spec fn scales(
    step: Step,
    m: DecoderModel,
    pts: Option<i64>,
    source: FrameSource,
    frame: FrameInfo,
) -> bool {
    let fits = m.sws matches Some(sws) && {
        &&& sws.src_format == frame.format
        &&& sws.src_width == frame.width
        &&& sws.src_height == frame.height
        &&& sws.dst_format == PixelFormat::Rgba
        &&& sws.dst_width == m.dst_width
        &&& sws.dst_height == m.dst_height
    };
    let config = ScalerConfig {
        src_format: frame.format,
        src_width: frame.width,
        src_height: frame.height,
        dst_format: PixelFormat::Rgba,
        dst_width: m.dst_width,
        dst_height: m.dst_height,
        filter: ScaleFilter::Bilinear,
    };
    if fits {
        step == (
            DecoderModel { phase: Phase::Scaling { pts, config }, ..m },
            Ok::<Progress, DecoderError>(Progress::Ask(Request::RunScaler(source))),
        )
    } else {
        step == (
            DecoderModel { phase: Phase::BuildingScaler { pts, source, config }, ..m },
            Ok::<Progress, DecoderError>(Progress::Ask(Request::BuildScaler(config))),
        )
    }
}

/// A scaler that was built is at hand from then on, with an empty RGBA frame,
/// and is run on the frame that it was built for. One that could not be built
/// ends the call with FFmpeg's error, and the decoder is as it was.
pub proof fn law_built_scaler_is_kept(
    m: DecoderModel,
    pts: Option<i64>,
    source: FrameSource,
    config: ScalerConfig,
    built: Result<(), FfmpegError>,
)
    requires
        m.phase == (Phase::BuildingScaler { pts, source, config }),
    ensures
        m.step(Reply::ScalerBuilt(built)) == (match built {
            Ok(_) => (
                DecoderModel {
                    sws: Some(config),
                    rgba_size: None,
                    phase: Phase::Scaling { pts, config },
                    ..m
                },
                Ok::<Progress, DecoderError>(Progress::Ask(Request::RunScaler(source))),
            ),
            Err(err) => (
                DecoderModel { phase: Phase::Idle, ..m },
                Err::<Progress, DecoderError>(DecoderError::Ffmpeg(err)),
            ),
        }),
{
}

/// A frame that was scaled fills the RGBA frame, is uploaded, and is then
/// returned with its timestamp. One that could not be scaled ends the call with
/// FFmpeg's error. The scaler stays at hand either way.
pub proof fn law_scaled_frame_is_uploaded(
    m: DecoderModel,
    pts: Option<i64>,
    config: ScalerConfig,
    scaled: Result<(), FfmpegError>,
)
    requires
        m.phase == (Phase::Scaling { pts, config }),
    ensures
        ({
            let next = m.step(Reply::Scaled(scaled));
            let filled = DecoderModel {
                rgba_size: Some((config.dst_width, config.dst_height)),
                phase: next.0.phase,
                ..m
            };
            &&& next.0 == filled
            &&& scaled is Ok ==> {
                &&& next.1 == Ok::<Progress, DecoderError>(Progress::Ask(Request::Upload))
                &&& next.0.phase is Uploading
                &&& next.0.step(Reply::Uploaded) == (
                    DecoderModel { phase: Phase::Idle, ..filled },
                    Ok::<Progress, DecoderError>(
                        Progress::Decoded(DecodeOutcome::Frame { pts }),
                    ),
                )
            }
            &&& scaled matches Err(err) ==> next.1 == Err::<Progress, DecoderError>(
                DecoderError::Ffmpeg(err),
            ) && next.0.phase is Idle
        }),
{
}

/// An upload ends the call with the frame's own timestamp, and changes nothing.
pub proof fn law_upload_ends_the_call(m: DecoderModel, pts: Option<i64>)
    requires
        m.phase == (Phase::Uploading { pts }),
    ensures
        m.step(Reply::Uploaded) == (
            DecoderModel { phase: Phase::Idle, ..m },
            Ok::<Progress, DecoderError>(Progress::Decoded(DecodeOutcome::Frame { pts })),
        ),
{
}

/// Textures that were made end the call with the frame, and with its own
/// timestamp; where they could not be made the call ends with the reason.
/// Nothing changes.
pub proof fn law_textures_end_the_call(
    m: DecoderModel,
    pts: Option<i64>,
    made: Result<HwFrameTextures, DecoderError>,
)
    requires
        m.phase == (Phase::Extracting { pts }),
    ensures
        m.step(Reply::Extracted(made)).0 == (DecoderModel { phase: Phase::Idle, ..m }),
        made matches Ok(textures) ==> m.step(Reply::Extracted(made)).1 == Ok::<
            Progress,
            DecoderError,
        >(Progress::DecodedHw(HwDecodeOutcome::Frame { textures, pts })),
        made matches Err(err) ==> m.step(Reply::Extracted(made)).1 == Err::<
            Progress,
            DecoderError,
        >(err),
{
}

/// A transfer that does not fail scales the copy, with the timestamp of the
/// hardware frame; one that fails ends the call with FFmpeg's status.
pub proof fn law_copy_is_scaled(m: DecoderModel, pts: Option<i64>, status: i32, copy: FrameInfo)
    requires
        m.phase == (Phase::Transferring { pts }),
    ensures
        status >= 0 ==> scales(
            m.step(Reply::Transferred { status, copy }),
            m,
            pts,
            FrameSource::Transferred,
            copy,
        ),
        status < 0 ==> m.step(Reply::Transferred { status, copy }) == (
            DecoderModel { phase: Phase::Idle, ..m },
            Err::<Progress, DecoderError>(DecoderError::HwTransfer(status)),
        ),
{
}

/// Of the packets that are read, those of the decoded stream are sent, and all
/// others are skipped; the end of the input is passed on to the codec; and any
/// other error ends the call. None of it changes the decoder.
pub proof fn law_packets_are_sent_or_skipped(
    m: DecoderModel,
    call: Call,
    read: Result<usize, FfmpegError>,
)
    requires
        m.phase == (Phase::Reading { call }),
    ensures
        ({
            let next = m.step(Reply::PacketRead(read));
            &&& next.0 == (DecoderModel { phase: next.0.phase, ..m })
            &&& read matches Ok(stream) ==> {
                &&& stream == m.stream_index ==> next.0.phase == (Phase::SendingPacket { call })
                    && next.1 == Ok::<Progress, DecoderError>(Progress::Ask(Request::SendPacket))
                &&& stream != m.stream_index ==> next.0.phase == m.phase && next.1 == Ok::<
                    Progress,
                    DecoderError,
                >(Progress::Ask(Request::ReadPacket))
            }
            &&& read matches Err(err) ==> {
                &&& err.kind is Eof ==> next.0.phase == (Phase::SendingEof { call }) && next.1
                    == Ok::<Progress, DecoderError>(Progress::Ask(Request::SendEof))
                &&& !(err.kind is Eof) ==> next.0.phase is Idle && next.1 == Err::<
                    Progress,
                    DecoderError,
                >(DecoderError::Ffmpeg(err))
            }
        }),
{
}

/// Once a packet or the end of the stream was sent, the codec is asked for a
/// frame again; where that failed the call ends with FFmpeg's error. The end of
/// the stream that was sent, and nothing else, flushes the codec.
pub proof fn law_sent_input_asks_for_a_frame(
    m: DecoderModel,
    call: Call,
    sent: Result<(), FfmpegError>,
)
    ensures
        m.phase == (Phase::SendingPacket { call }) ==> m.step(Reply::PacketSent(sent)) == (
        match sent {
            Ok(_) => (
                DecoderModel { phase: Phase::Receiving { call }, ..m },
                Ok::<Progress, DecoderError>(Progress::Ask(Request::ReceiveFrame)),
            ),
            Err(err) => (
                DecoderModel { phase: Phase::Idle, ..m },
                Err::<Progress, DecoderError>(DecoderError::Ffmpeg(err)),
            ),
        }),
        m.phase == (Phase::SendingEof { call }) ==> m.step(Reply::EofSent(sent)) == (match sent {
            Ok(_) => (
                DecoderModel { phase: Phase::Receiving { call }, flushed: true, ..m },
                Ok::<Progress, DecoderError>(Progress::Ask(Request::ReceiveFrame)),
            ),
            Err(err) => (
                DecoderModel { phase: Phase::Idle, ..m },
                Err::<Progress, DecoderError>(DecoderError::Ffmpeg(err)),
            ),
        }),
{
}

/// Feeding the codec asks for the next packet, or for a frame where the codec
/// was flushed, and changes nothing else.
pub proof fn law_pump_reads_unless_flushed(m: DecoderModel, call: Call)
    ensures
        m.pump(call).1 == Ok::<Progress, DecoderError>(Progress::Ask(Request::ReadPacket))
            <==> !m.flushed,
        m.pump(call).1 == Ok::<Progress, DecoderError>(Progress::Ask(Request::ReceiveFrame))
            <==> m.flushed,
        m.pump(call).0 == (DecoderModel {
            phase: if m.flushed {
                Phase::Receiving { call }
            } else {
                Phase::Reading { call }
            },
            ..m
        }),
{
}

/// Each call starts by asking the codec for a frame, drained or not, unless it
/// is refused: an upload if and only if the texture is neither `Rgba8Unorm` nor
/// `Rgba8UnormSrgb`, whatever its size, and a hardware call if and only if
/// VideoToolbox was not negotiated. A refused call changes nothing; an accepted
/// upload sets the size of the target, and drops the scaler and empties the
/// RGBA frame exactly where that is a change.
pub proof fn law_how_calls_start(m: DecoderModel, target: TargetTexture)
    ensures
        ({
            let accepted = target.format is Rgba8Unorm || target.format is Rgba8UnormSrgb;
            let same = target.width == m.dst_width && target.height == m.dst_height;
            &&& target_supported(target.format) <==> accepted
            &&& accepted ==> m.begin(target) == (
                DecoderModel {
                    dst_width: target.width,
                    dst_height: target.height,
                    sws: if same {
                        m.sws
                    } else {
                        None
                    },
                    rgba_size: if same {
                        m.rgba_size
                    } else {
                        None
                    },
                    phase: Phase::Receiving { call: Call::Software },
                    ..m
                },
                Ok::<Progress, DecoderError>(Progress::Ask(Request::ReceiveFrame)),
            )
            &&& !accepted ==> m.begin(target) == (
                m,
                Err::<Progress, DecoderError>(
                    DecoderError::UnsupportedTextureFormat { format: target.format },
                ),
            )
        }),
        m.active_hwaccel == ActiveHwAccel::VideoToolbox ==> m.begin_hw() == (
            DecoderModel { phase: Phase::Receiving { call: Call::Hardware }, ..m },
            Ok::<Progress, DecoderError>(Progress::Ask(Request::ReceiveFrame)),
        ),
        m.active_hwaccel == ActiveHwAccel::Software ==> m.begin_hw() == (
            m,
            Err::<Progress, DecoderError>(
                DecoderError::HwAccelNotActive(ActiveHwAccel::Software),
            ),
        ),
{
}

/// A decoder waits for the reply to what it asked for and for no other, and for
/// none between calls.
pub proof fn law_phases_and_replies(phase: Phase, reply: Reply)
    ensures
        phase_expects(phase, reply) <==> (match phase {
            Phase::Idle => false,
            Phase::Receiving { .. } => reply is Received,
            Phase::Reading { .. } => reply is PacketRead,
            Phase::SendingPacket { .. } => reply is PacketSent,
            Phase::SendingEof { .. } => reply is EofSent,
            Phase::Transferring { .. } => reply is Transferred,
            Phase::BuildingScaler { .. } => reply is ScalerBuilt,
            Phase::Scaling { .. } => reply is Scaled,
            Phase::Uploading { .. } => reply is Uploaded,
            Phase::Extracting { .. } => reply is Extracted,
        }),
{
}

/// A decoder that was just opened has decoded nothing and holds no scaler, and
/// reports the stream, the sizes and the hardware that it was opened with.
pub proof fn law_fresh_decoder(
    host: Host,
    stream_index: usize,
    active: ActiveHwAccel,
    src: (u32, u32),
    dst: (u32, u32),
    time_base: Rational,
    frame_rate: Option<Rational>,
)
    ensures
        ({
            let m = fresh_decoder(host, stream_index, active, src, dst, time_base, frame_rate);
            &&& m.host == host && m.stream_index == stream_index && m.active_hwaccel == active
            &&& m.src_width == src.0 && m.src_height == src.1
            &&& m.info().width == dst.0 && m.info().height == dst.1
            &&& m.dst_width == dst.0 && m.dst_height == dst.1
            &&& m.info().time_base == time_base && m.time_base == time_base
            &&& m.info().frame_rate == frame_rate && m.frame_rate == frame_rate
            &&& m.info().hwaccel == active
            &&& m.phase is Idle && !m.flushed && !m.drained
            &&& m.sws is None && m.rgba_size is None && m.upload_scratch.len() == 0
        }),
{
}

/// What a decoder reports of its frames is the size of the target that frames
/// were last uploaded to, and what it was opened with otherwise.
pub proof fn law_info_follows_the_target(m: DecoderModel, target: TargetTexture)
    ensures
        m.info().width == m.dst_width && m.info().height == m.dst_height,
        m.info().time_base == m.time_base && m.info().frame_rate == m.frame_rate,
        m.info().hwaccel == m.active_hwaccel,
        m.begin(target).1 is Ok ==> m.begin(target).0.info().width == target.width && m.begin(
            target,
        ).0.info().height == target.height,
        m.begin_hw().0.info() == m.info(),
{
}

/// A frame in CPU memory that the codec has ready is uploaded and returned,
/// whatever its format and size and whatever was decoded before: the call
/// succeeds wherever the work that it asks for does.
pub proof fn law_ready_frame_is_returned(
    m: DecoderModel,
    target: TargetTexture,
    frame: FrameInfo,
)
    requires
        target.format is Rgba8Unorm || target.format is Rgba8UnormSrgb,
        frame.format != PixelFormat::VideoToolbox,
    ensures
        ({
            let received = m.begin(target).0.step(Reply::Received(Ok(frame)));
            let running = if received.0.phase is BuildingScaler {
                received.0.step(Reply::ScalerBuilt(Ok(())))
            } else {
                received
            };
            let scaled = running.0.step(Reply::Scaled(Ok(())));
            let ended = scaled.0.step(Reply::Uploaded);
            &&& running.1 == Ok::<Progress, DecoderError>(
                Progress::Ask(Request::RunScaler(FrameSource::Decoded)),
            )
            &&& scaled.1 == Ok::<Progress, DecoderError>(Progress::Ask(Request::Upload))
            &&& ended.1 == Ok::<Progress, DecoderError>(
                Progress::Decoded(DecodeOutcome::Frame { pts: frame.pts }),
            )
            &&& ended.0.drained == m.drained && ended.0.flushed == m.flushed
            &&& ended.0.dst_width == target.width && ended.0.dst_height == target.height
        }),
{
}

/// What is uploaded fills a texture of the size that frames are scaled to with
/// the pixels of the RGBA frame, each channel in its place, whatever the frame's
/// stride and whatever was uploaded before; and preparing it changes nothing of
/// the decoder but the bytes that were repacked.
pub proof fn law_prepared_upload(
    m: DecoderModel,
    plane: Seq<u8>,
    stride: int,
    x: int,
    y: int,
    c: int,
)
    requires
        m.dst_width * 4 <= u32::MAX,
        stride >= 0,
        (m.dst_height - 1) * stride + m.dst_width * 4 <= plane.len(),
        0 <= x < m.dst_width,
        0 <= y < m.dst_height,
        0 <= c < 4,
    ensures
        ({
            let (after, upload) = m.prepared(plane, stride);
            let bytes = upload_bytes(upload, plane, after.upload_scratch);
            &&& after == (DecoderModel { upload_scratch: after.upload_scratch, ..m })
            &&& upload.layout.width == m.dst_width && upload.layout.height == m.dst_height
            &&& upload.layout.bytes_per_row == m.dst_width * 4
            &&& upload.layout.rows_per_image == m.dst_height
            &&& 0 <= y * (m.dst_width * 4) + x * 4 + c < bytes.len()
            &&& bytes[y * (m.dst_width * 4) + x * 4 + c] == plane[y * stride + x * 4 + c]
        }),
{
    law_upload_fills_the_texture(stride, m.dst_width, m.dst_height);
    law_each_channel_keeps_its_place(
        plane,
        stride,
        m.dst_width,
        m.dst_height,
        m.upload_scratch,
        x,
        y,
        c,
    );
}

} // verus!
