//! The player: when a frame is decoded, when it is drawn, and what is reported.
//!
//! The window and its renderer live outside the library. They call the player
//! on every redraw, and [`RuntimeState`] decides what the redraw does.

use crate::decoder::{HwDecodeOutcome, VideoDecoder, VideoInfo};
use crate::error::{active_name, active_text, DecoderError};
use crate::hw_textures::HwFrameTextures;
use crate::hwaccel::HwAccel;
use crate::media::Host;
use crate::open::{open_outcome, open_plan, probed, OpenPlan, OpenWork};
use crate::text::{decimal, push_decimal};
use crate::texture::at_least_one;
use vstd::prelude::*;
use vstd::string::*;

verus! {

/// The time between two reports of the frame rate, in nanoseconds.
pub const REPORT_INTERVAL: u64 = 1_000_000_000;

/// The state of the player.
#[derive(Debug)]
pub struct RuntimeState {
    pub info: VideoInfo,
    /// Last decoded frame. It is drawn again on every redraw until there is a
    /// newer one.
    pub current_frame: Option<HwFrameTextures>,
    /// No more frames are asked for: the stream has ended, or an error came up.
    pub eof_reported: bool,
    /// Frames decoded since the last report.
    pub frames_decoded: u64,
    /// Frames drawn since the last report.
    pub composites: u64,
    /// When the last report was made, in nanoseconds.
    pub last_log: u64,
}

/// What a redraw does next.
#[derive(Debug, Clone, Copy, PartialEq, Eq, Structural)]
pub enum TickStep {
    /// Decode the next frame on the hardware.
    Decode,
    /// Draw the current frame at this size, and show it.
    Draw { width: u32, height: u32 },
    /// Nothing: there is no frame yet.
    Done,
}

/// What the user is told about a redraw.
#[derive(Debug, PartialEq, Eq)]
pub enum Notice {
    EndOfStream,
    DecodeError(DecoderError),
}

/// How many frames were decoded and drawn since the last report.
#[derive(Debug, Clone, Copy, PartialEq, Eq, Structural)]
pub struct RateReport {
    pub frames_decoded: u64,
    pub composites: u64,
}

/// What the renderer of the window reports.
#[derive(Debug, Clone, Copy, PartialEq, Eq, Structural)]
pub enum RenderingState {
    RenderingSetup,
    BeforeRendering,
    AfterRendering,
    RenderingTeardown,
}

/// What the player does about it.
#[derive(Debug, Clone, Copy, PartialEq, Eq, Structural)]
pub enum RenderAction {
    /// Open the video and start the player.
    Initialize,
    /// Redraw.
    Tick,
    /// Drop the player.
    Teardown,
    Nothing,
}

/// The time that has passed, none where the clock went back.
pub open spec fn elapsed(now: u64, since: u64) -> int {
    if now >= since {
        now - since
    } else {
        0
    }
}

impl RuntimeState {
    /// A player that has just opened a video.
    pub open spec fn started(info: VideoInfo, now: u64) -> RuntimeState {
        RuntimeState {
            info,
            current_frame: None,
            eof_reported: false,
            frames_decoded: 0,
            composites: 0,
            last_log: now,
        }
    }

    /// What is drawn: the current frame, where there is one.
    pub open spec fn draw_step(self) -> TickStep {
        match self.current_frame {
            None => TickStep::Done,
            Some(frame) => TickStep::Draw { width: frame.width, height: frame.height },
        }
    }

    /// What a redraw starts with.
    pub open spec fn first_step(self) -> TickStep {
        if self.eof_reported {
            self.draw_step()
        } else {
            TickStep::Decode
        }
    }

    /// The player once it was told what decoding came to.
    pub open spec fn after_decode(
        self,
        outcome: Result<HwDecodeOutcome, DecoderError>,
    ) -> RuntimeState {
        match outcome {
            Ok(HwDecodeOutcome::Frame { textures, .. }) => RuntimeState {
                current_frame: Some(textures),
                frames_decoded: (self.frames_decoded + 1) as u64,
                ..self
            },
            _ => RuntimeState { eof_reported: true, ..self },
        }
    }

    /// What the user is told of it.
    pub open spec fn notice_of(outcome: Result<HwDecodeOutcome, DecoderError>) -> Option<Notice> {
        match outcome {
            Ok(HwDecodeOutcome::Frame { .. }) => None,
            Ok(HwDecodeOutcome::Eof) => Some(Notice::EndOfStream),
            Err(err) => Some(Notice::DecodeError(err)),
        }
    }

    /// Whether a frame that is drawn now ends the interval of a report.
    pub open spec fn report_due(self, now: u64) -> bool {
        elapsed(now, self.last_log) >= REPORT_INTERVAL
    }

    /// The player once a frame was drawn.
    pub open spec fn after_draw(self, now: u64) -> RuntimeState {
        if self.report_due(now) {
            RuntimeState { frames_decoded: 0, composites: 0, last_log: now, ..self }
        } else {
            RuntimeState { composites: (self.composites + 1) as u64, ..self }
        }
    }

    /// What is reported of it.
    pub open spec fn report_of(self, now: u64) -> Option<RateReport> {
        if self.report_due(now) {
            Some(
                RateReport {
                    frames_decoded: self.frames_decoded,
                    composites: (self.composites + 1) as u64,
                },
            )
        } else {
            None
        }
    }

    /// Start the player on an opened video.
    pub fn initialize(info: VideoInfo, now: u64) -> (r: RuntimeState)
        ensures
            r == RuntimeState::started(info, now),
    {
        RuntimeState {
            info,
            current_frame: None,
            eof_reported: false,
            frames_decoded: 0,
            composites: 0,
            last_log: now,
        }
    }

    /// Start a redraw.
    pub fn tick(&self) -> (r: TickStep)
        ensures
            r == self.first_step(),
    {
        if !self.eof_reported {
            return TickStep::Decode;
        }
        self.to_draw()
    }

    fn to_draw(&self) -> (r: TickStep)
        ensures
            r == self.draw_step(),
    {
        match &self.current_frame {
            None => TickStep::Done,
            Some(frame) => TickStep::Draw { width: frame.width, height: frame.height },
        }
    }

    /// Go on with a redraw once the next frame was decoded, or was not.
    pub fn frame_decoded(&mut self, outcome: Result<HwDecodeOutcome, DecoderError>) -> (r: (
        TickStep,
        Option<Notice>,
    ))
        requires
            outcome matches Ok(HwDecodeOutcome::Frame { .. }) ==> old(self).frames_decoded
                < u64::MAX,
        ensures
            *final(self) == old(self).after_decode(outcome),
            r.0 == final(self).draw_step(),
            r.1 == RuntimeState::notice_of(outcome),
    {
        let notice = match outcome {
            Ok(HwDecodeOutcome::Frame { textures, pts: _ }) => {
                self.current_frame = Some(textures);
                self.frames_decoded = self.frames_decoded + 1;
                None
            },
            Ok(HwDecodeOutcome::Eof) => {
                self.eof_reported = true;
                Some(Notice::EndOfStream)
            },
            Err(err) => {
                self.eof_reported = true;
                Some(Notice::DecodeError(err))
            },
        };
        (self.to_draw(), notice)
    }

    /// Finish a redraw that drew the current frame, at the time `now`.
    pub fn frame_drawn(&mut self, now: u64) -> (r: Option<RateReport>)
        requires
            old(self).composites < u64::MAX,
        ensures
            *final(self) == old(self).after_draw(now),
            r == old(self).report_of(now),
    {
        self.composites = self.composites + 1;
        if now >= self.last_log && now - self.last_log >= REPORT_INTERVAL {
            let report = RateReport {
                frames_decoded: self.frames_decoded,
                composites: self.composites,
            };
            self.frames_decoded = 0;
            self.composites = 0;
            self.last_log = now;
            return Some(report);
        }
        None
    }
}

/// The plan to open a video whose size was probed: at that size, with whatever
/// hardware suits the host. Where the probe failed nothing is opened.
pub open spec fn planned(probed: Result<(u32, u32), DecoderError>, host: Host) -> Result<
    OpenPlan,
    DecoderError,
> {
    match probed {
        Err(err) => Err(err),
        Ok((width, height)) => Ok(open_plan(width, height, HwAccel::Auto, host)),
    }
}

/// Plan how the player opens a video, once its size was probed.
///
/// The size counts for uploads only: hardware frames keep their own.
pub fn plan_open(probed: Result<(u32, u32), DecoderError>, host: Host) -> (r: Result<
    OpenPlan,
    DecoderError,
>)
    ensures
        r == planned(probed, host),
{
    match probed {
        Err(err) => Err(err),
        Ok((width, height)) => Ok(VideoDecoder::open_with(width, height, HwAccel::Auto, host)),
    }
}

/// What starting the player comes to, where the outside work to open the video
/// comes to `work`.
pub open spec fn player_outcome(
    probed: Result<(u32, u32), DecoderError>,
    host: Host,
    work: OpenWork,
    now: u64,
) -> Result<RuntimeState, DecoderError> {
    match planned(probed, host) {
        Err(err) => Err(err),
        Ok(plan) => match open_outcome(plan, work) {
            Err(err) => Err(err),
            Ok(decoder) => Ok(RuntimeState::started(decoder.info(), now)),
        },
    }
}

/// The player does not start where the probe fails or the video cannot be
/// opened, and reports the error of the first that did. Otherwise it starts
/// with no frame, on a decoder that has decoded nothing, and shows the video at
/// the probed size but with no empty side.
pub proof fn law_player_starts(
    probe: Result<(u32, u32), DecoderError>,
    host: Host,
    work: OpenWork,
    now: u64,
)
    ensures
        match probe {
            Err(err) => player_outcome(probe, host, work, now) == Err::<
                RuntimeState,
                DecoderError,
            >(err),
            Ok((width, height)) => match open_outcome(
                open_plan(width, height, HwAccel::Auto, host),
                work,
            ) {
                Err(err) => player_outcome(probe, host, work, now) == Err::<
                    RuntimeState,
                    DecoderError,
                >(err),
                Ok(m) => {
                    &&& m.valid() && m.phase is Idle && !m.flushed && !m.drained
                    &&& player_outcome(probe, host, work, now) matches Ok(state)
                    &&& state.info == m.info()
                    &&& state.info.width == at_least_one(width)
                    &&& state.info.height == at_least_one(height)
                    &&& state.current_frame is None
                    &&& !state.eof_reported
                    &&& state.frames_decoded == 0 && state.composites == 0
                    &&& state.last_log == now
                },
            },
        },
        probe == probed(work.input, work.opened) ==> (player_outcome(probe, host, work, now)
            matches Ok(state) ==> state.info.width == at_least_one(work.opened->Ok_0.0)
            && state.info.height == at_least_one(work.opened->Ok_0.1)),
{
}

/// What the player does about a report of the renderer.
pub open spec fn rendering_action(
    state: RenderingState,
    wgpu: bool,
    running: bool,
    window: bool,
) -> RenderAction {
    match state {
        RenderingState::RenderingSetup => if wgpu {
            RenderAction::Initialize
        } else {
            RenderAction::Nothing
        },
        RenderingState::BeforeRendering => if running && window {
            RenderAction::Tick
        } else {
            RenderAction::Nothing
        },
        RenderingState::AfterRendering => RenderAction::Nothing,
        RenderingState::RenderingTeardown => RenderAction::Teardown,
    }
}

/// What the player does when the renderer reports `state`. `wgpu` says whether
/// the renderer hands out a GPU device, `running` whether the player was
/// started, and `window` whether the window is still there.
pub fn on_rendering_state(state: RenderingState, wgpu: bool, running: bool, window: bool) -> (r:
    RenderAction)
    ensures
        r == rendering_action(state, wgpu, running, window),
        r == (match state {
            RenderingState::RenderingSetup => if wgpu {
                RenderAction::Initialize
            } else {
                RenderAction::Nothing
            },
            RenderingState::BeforeRendering => if running && window {
                RenderAction::Tick
            } else {
                RenderAction::Nothing
            },
            RenderingState::AfterRendering => RenderAction::Nothing,
            RenderingState::RenderingTeardown => RenderAction::Teardown,
        }),
{
    match state {
        RenderingState::RenderingSetup => {
            if wgpu {
                return RenderAction::Initialize;
            }
            RenderAction::Nothing
        },
        RenderingState::BeforeRendering => {
            if !running || !window {
                return RenderAction::Nothing;
            }
            RenderAction::Tick
        },
        RenderingState::RenderingTeardown => RenderAction::Teardown,
        RenderingState::AfterRendering => RenderAction::Nothing,
    }
}

/// The status line of a video: its file name, or a question mark where there is
/// none that can be shown; its size; and the hardware that decodes it.
pub open spec fn status_text(file_name: Option<&str>, info: VideoInfo) -> Seq<char> {
    (match file_name {
        Some(name) => name@,
        None => "?"@,
    }) + "  \u{b7}  "@ + decimal(info.width as nat) + "x"@ + decimal(info.height as nat)
        + "  \u{b7}  hwaccel = "@ + active_name(info.hwaccel)
}

/// Describe the opened video in the window.
pub fn status_line(file_name: Option<&str>, info: &VideoInfo) -> (r: String)
    ensures
        r@ == status_text(file_name, *info),
{
    let mut out = String::new();
    match file_name {
        Some(name) => out.append(name),
        None => out.append("?"),
    }
    out.append("  \u{b7}  ");
    push_decimal(&mut out, info.width as u64);
    out.append("x");
    push_decimal(&mut out, info.height as u64);
    out.append("  \u{b7}  hwaccel = ");
    out.append(active_text(info.hwaccel));
    assert(out@ =~= status_text(file_name, *info));
    out
}

/// What the window tells of a video that could not be opened.
pub open spec fn failure_text(err: DecoderError) -> Seq<char> {
    "initialization failed: "@ + err.spec_message()
}

/// Tell in the window why the video could not be opened.
pub fn failure_line(err: &DecoderError) -> (r: String)
    ensures
        r@ == failure_text(*err),
        r@ == "initialization failed: "@ + err.spec_message(),
{
    let mut out = String::new();
    out.append("initialization failed: ");
    out.append(err.message().as_str());
    assert(out@ =~= "initialization failed: "@ + err.spec_message());
    out
}

/// Once the end of the stream or an error was reported nothing is decoded any
/// more, and nothing else is ever reported of it.
pub proof fn law_stops_after_end(
    state: RuntimeState,
    outcome: Result<HwDecodeOutcome, DecoderError>,
    now: u64,
)
    ensures
        RuntimeState::notice_of(outcome) is Some <==> !(outcome matches Ok(
            HwDecodeOutcome::Frame { .. },
        )),
        RuntimeState::notice_of(outcome) is Some ==> state.after_decode(outcome).eof_reported,
        state.eof_reported ==> state.first_step() != TickStep::Decode,
        state.eof_reported ==> state.after_draw(now).eof_reported,
{
}

/// A decoded frame is drawn on every redraw until there is a newer one, also
/// after the end of the stream.
pub proof fn law_frame_is_kept(
    state: RuntimeState,
    outcome: Result<HwDecodeOutcome, DecoderError>,
    now: u64,
)
    requires
        state.current_frame is Some,
    ensures
        state.after_draw(now).current_frame == state.current_frame,
        state.after_decode(outcome).current_frame is Some,
        !(outcome matches Ok(HwDecodeOutcome::Frame { .. })) ==> state.after_decode(
            outcome,
        ).current_frame == state.current_frame,
        outcome matches Ok(HwDecodeOutcome::Frame { textures, .. }) ==> state.after_decode(
            outcome,
        ).draw_step() == (TickStep::Draw { width: textures.width, height: textures.height }),
{
}

/// Something that happens in the course of a redraw.
pub enum PlayerEvent {
    /// Decoding came to this.
    Decoded(Result<HwDecodeOutcome, DecoderError>),
    /// A frame was drawn at this time.
    Drawn(u64),
}

/// The player after a number of events.
pub open spec fn after_events(start: RuntimeState, events: Seq<PlayerEvent>) -> RuntimeState
    decreases events.len(),
{
    if events.len() == 0 {
        start
    } else {
        let before = after_events(start, events.drop_last());
        match events.last() {
            PlayerEvent::Decoded(outcome) => before.after_decode(outcome),
            PlayerEvent::Drawn(now) => before.after_draw(now),
        }
    }
}

/// The frames that were decoded and the frames that were drawn.
pub open spec fn counted(events: Seq<PlayerEvent>) -> (int, int)
    decreases events.len(),
{
    if events.len() == 0 {
        (0, 0)
    } else {
        let before = counted(events.drop_last());
        match events.last() {
            PlayerEvent::Decoded(Ok(HwDecodeOutcome::Frame { .. })) => (before.0 + 1, before.1),
            PlayerEvent::Decoded(_) => before,
            PlayerEvent::Drawn(_) => (before.0, before.1 + 1),
        }
    }
}

/// The decoded and the drawn frames of all reports, added up.
pub open spec fn reported(start: RuntimeState, events: Seq<PlayerEvent>) -> (int, int)
    decreases events.len(),
{
    if events.len() == 0 {
        (0, 0)
    } else {
        let before = reported(start, events.drop_last());
        match events.last() {
            PlayerEvent::Decoded(_) => before,
            PlayerEvent::Drawn(now) => match after_events(start, events.drop_last()).report_of(
                now,
            ) {
                Some(report) => (
                    before.0 + report.frames_decoded,
                    before.1 + report.composites,
                ),
                None => before,
            },
        }
    }
}

/// Each decoded and each drawn frame is counted exactly once: in one of the
/// reports, or in what the next report will say.
pub proof fn law_reports_count_all(info: VideoInfo, began: u64, events: Seq<PlayerEvent>)
    requires
        events.len() < u64::MAX,
    ensures
        ({
            let start = RuntimeState::started(info, began);
            let now = after_events(start, events);
            &&& reported(start, events).0 + now.frames_decoded == counted(events).0
            &&& reported(start, events).1 + now.composites == counted(events).1
        }),
{
    lemma_reports_count_all(info, began, events);
}

proof fn lemma_reports_count_all(info: VideoInfo, began: u64, events: Seq<PlayerEvent>)
    requires
        events.len() < u64::MAX,
    ensures
        ({
            let start = RuntimeState::started(info, began);
            let now = after_events(start, events);
            &&& reported(start, events).0 + now.frames_decoded == counted(events).0
            &&& reported(start, events).1 + now.composites == counted(events).1
            &&& now.frames_decoded <= events.len()
            &&& now.composites <= events.len()
        }),
    decreases events.len(),
{
    if events.len() > 0 {
        lemma_reports_count_all(info, began, events.drop_last());
    }
}

/// A report is made if and only if a frame is drawn a second or more after the
/// last report, and starts the next interval.
pub proof fn law_reports_a_second_apart(state: RuntimeState, now: u64)
    ensures
        state.report_of(now) is Some <==> now - state.last_log >= REPORT_INTERVAL,
        state.report_of(now) is Some ==> state.after_draw(now).last_log == now,
        state.report_of(now) is None ==> state.after_draw(now).last_log == state.last_log,
{
}

/// A redraw starts by decoding if and only if neither the end of the stream nor
/// an error was reported, whatever was drawn, counted or reported before.
/// Otherwise it draws the current frame at its own size, where there is one.
pub proof fn law_redraws_decode_until_the_end(state: RuntimeState)
    ensures
        state.first_step() == TickStep::Decode <==> !state.eof_reported,
        state.eof_reported ==> (match state.current_frame {
            Some(frame) => state.first_step() == (TickStep::Draw {
                width: frame.width,
                height: frame.height,
            }),
            None => state.first_step() == TickStep::Done,
        }),
{
}

/// What is drawn depends on the current frame alone: nothing where there is
/// none, and otherwise that frame at its own size.
pub proof fn law_current_frame_is_drawn(state: RuntimeState)
    ensures
        state.draw_step() == TickStep::Done <==> state.current_frame is None,
        state.current_frame matches Some(frame) ==> state.draw_step() == (TickStep::Draw {
            width: frame.width,
            height: frame.height,
        }),
{
}

/// What decoding came to changes one thing: a frame becomes the current one and
/// is counted, whatever its timestamp; anything else stops the decoding.
pub proof fn law_what_decoding_changes(
    state: RuntimeState,
    outcome: Result<HwDecodeOutcome, DecoderError>,
)
    ensures
        ({
            let after = state.after_decode(outcome);
            &&& after.info == state.info
            &&& after.composites == state.composites && after.last_log == state.last_log
            &&& outcome matches Ok(HwDecodeOutcome::Frame { textures, .. }) ==> {
                &&& after.current_frame == Some(textures)
                &&& state.frames_decoded < u64::MAX ==> after.frames_decoded
                    == state.frames_decoded + 1
                &&& after.eof_reported == state.eof_reported
            }
            &&& !(outcome matches Ok(HwDecodeOutcome::Frame { .. })) ==> {
                &&& after.current_frame == state.current_frame
                &&& after.frames_decoded == state.frames_decoded
                &&& after.eof_reported
            }
        }),
{
}

/// The user is told of the end of the stream, and of an error with that error,
/// and of no frame.
pub proof fn law_what_the_user_is_told(outcome: Result<HwDecodeOutcome, DecoderError>)
    ensures
        match outcome {
            Ok(HwDecodeOutcome::Frame { .. }) => RuntimeState::notice_of(outcome) is None,
            Ok(HwDecodeOutcome::Eof) => RuntimeState::notice_of(outcome) == Some(
                Notice::EndOfStream,
            ),
            Err(err) => RuntimeState::notice_of(outcome) == Some(Notice::DecodeError(err)),
        },
{
}

/// A drawn frame is counted. A full second after the last report, to the
/// nanosecond, both counts are reported with that frame among them, and start
/// again from zero; before that, and where the clock went back, nothing is
/// reported. Nothing else changes.
pub proof fn law_what_drawing_changes(state: RuntimeState, now: u64)
    requires
        state.composites < u64::MAX,
    ensures
        ({
            let after = state.after_draw(now);
            let due = now - state.last_log >= 1_000_000_000;
            &&& after.info == state.info && after.current_frame == state.current_frame
            &&& after.eof_reported == state.eof_reported
            &&& due ==> {
                &&& state.report_of(now) == Some(
                    RateReport {
                        frames_decoded: state.frames_decoded,
                        composites: (state.composites + 1) as u64,
                    },
                )
                &&& after.frames_decoded == 0 && after.composites == 0 && after.last_log == now
            }
            &&& !due ==> {
                &&& state.report_of(now) is None
                &&& after.frames_decoded == state.frames_decoded
                &&& after.composites == state.composites + 1
                &&& after.last_log == state.last_log
            }
        }),
{
}

/// Whether an event is anything but a decoded or a drawn frame.
pub open spec fn stops(event: PlayerEvent) -> bool {
    event matches PlayerEvent::Decoded(outcome) && !(outcome matches Ok(
        HwDecodeOutcome::Frame { .. },
    ))
}

/// Whether one of the events was the end of the stream or an error.
pub open spec fn stopped(events: Seq<PlayerEvent>) -> bool {
    exists|i: int| 0 <= i < events.len() && stops(#[trigger] events[i])
}

/// The frame that was decoded last.
pub open spec fn newest_frame(events: Seq<PlayerEvent>) -> Option<HwFrameTextures>
    decreases events.len(),
{
    if events.len() == 0 {
        None
    } else {
        match events.last() {
            PlayerEvent::Decoded(Ok(HwDecodeOutcome::Frame { textures, .. })) => Some(textures),
            _ => newest_frame(events.drop_last()),
        }
    }
}

/// Over any course of events, every redraw pulls the next frame until the end
/// of the stream or an error came up, and none does after that; and the frame
/// that is drawn is the one that was decoded last.
pub proof fn law_player_pulls_frames_until_the_end(
    info: VideoInfo,
    began: u64,
    events: Seq<PlayerEvent>,
)
    ensures
        ({
            let state = after_events(RuntimeState::started(info, began), events);
            &&& state.first_step() == TickStep::Decode <==> !stopped(events)
            &&& state.eof_reported <==> stopped(events)
            &&& state.current_frame == newest_frame(events)
            &&& state.info == info
        }),
    decreases events.len(),
{
    if events.len() > 0 {
        let earlier = events.drop_last();
        law_player_pulls_frames_until_the_end(info, began, earlier);
        assert(events.last() == events[events.len() - 1]);
        if stopped(earlier) {
            let i = choose|i: int| 0 <= i < earlier.len() && stops(#[trigger] earlier[i]);
            assert(stops(events[i]));
        }
        if stopped(events) {
            let i = choose|i: int| 0 <= i < events.len() && stops(#[trigger] events[i]);
            if i < earlier.len() {
                assert(stops(earlier[i]));
            }
        }
    }
}

/// A player starts with nothing decoded, drawn or reported, on the video that
/// it was given.
pub proof fn law_fresh_player(info: VideoInfo, now: u64)
    ensures
        ({
            let state = RuntimeState::started(info, now);
            &&& state.info == info && state.current_frame is None && !state.eof_reported
            &&& state.frames_decoded == 0 && state.composites == 0 && state.last_log == now
            &&& state.first_step() == TickStep::Decode
        }),
{
}

/// A video is opened exactly where its probe succeeded, at the probed size with
/// no empty side, with the choice of the hardware left open.
pub proof fn law_probed_size_is_planned(
    probe: Result<(u32, u32), DecoderError>,
    host: Host,
)
    ensures
        planned(probe, host) is Ok <==> probe is Ok,
        probe matches Err(err) ==> planned(probe, host) == Err::<OpenPlan, DecoderError>(err),
        probe matches Ok(size) ==> (planned(probe, host) matches Ok(plan) && {
            &&& plan.dst_width == (if size.0 > 0 {
                size.0
            } else {
                1
            })
            &&& plan.dst_height == (if size.1 > 0 {
                size.1
            } else {
                1
            })
            &&& plan.hwaccel is Auto
            &&& plan.host == host
        }),
{
}

/// The player is started when the renderer is set up with a device, redraws
/// before each rendering while it runs in a window, and is dropped when the
/// renderer is torn down; nothing else makes it act.
pub proof fn law_when_the_player_acts(
    state: RenderingState,
    wgpu: bool,
    running: bool,
    window: bool,
)
    ensures
        rendering_action(state, wgpu, running, window) is Initialize <==> (state is RenderingSetup
            && wgpu),
        rendering_action(state, wgpu, running, window) is Tick <==> (state is BeforeRendering
            && running && window),
        rendering_action(state, wgpu, running, window) is Teardown <==> state is RenderingTeardown,
{
}

/// The status line tells the name of the video, or a question mark, then its
/// size and the hardware, and depends on nothing else.
pub proof fn law_status_texts(file_name: Option<&str>, info: VideoInfo)
    ensures
        status_text(file_name, info) == (if file_name is Some {
            file_name->0@
        } else {
            "?"@
        }) + "  \u{b7}  "@ + decimal(info.width as nat) + "x"@ + decimal(info.height as nat)
            + "  \u{b7}  hwaccel = "@ + (if info.hwaccel is VideoToolbox {
            "VideoToolbox"@
        } else {
            "None"@
        }),
{
}

/// A failure is told with the message of the error, whatever the error.
pub proof fn law_failure_texts(err: DecoderError)
    ensures
        failure_text(err) == "initialization failed: "@ + err.spec_message(),
{
}

} // verus!
