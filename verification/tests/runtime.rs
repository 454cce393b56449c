use cutlass::decoder::{HwDecodeOutcome, VideoInfo};
use cutlass::error::DecoderError;
use cutlass::hw_textures::{extract_nv12_textures, HwFrameTextures, PixelBuffer};
use cutlass::hwaccel::{ActiveHwAccel, HwAccel};
use cutlass::media::{CodecId, Host, Rational};
use cutlass::open::{CodecInfo, CodecPlan, OpenPlan, StreamInfo};
use cutlass::runtime::{
    failure_line, on_rendering_state, plan_open, status_line, Notice, RateReport,
    RenderAction, RenderingState, RuntimeState, TickStep,
};

const SECOND: u64 = 1_000_000_000;

fn info() -> VideoInfo {
    VideoInfo {
        width: 3840,
        height: 2160,
        time_base: Rational { numerator: 1, denominator: 24 },
        frame_rate: None,
        hwaccel: ActiveHwAccel::VideoToolbox,
    }
}

fn frame(width: usize, height: usize) -> HwFrameTextures {
    extract_nv12_textures(
        Some(PixelBuffer {
            width,
            height,
            plane_count: 2,
            pixel_format: 0x34323076,
            has_iosurface: true,
        }),
        true,
    )
    .unwrap()
    .assemble(true, true)
    .unwrap()
}

fn decoded(width: usize, height: usize) -> Result<HwDecodeOutcome, DecoderError> {
    Ok(HwDecodeOutcome::Frame { textures: frame(width, height), pts: Some(0) })
}

#[test]
fn player_starts_by_decoding() {
    let state = RuntimeState::initialize(info(), 17);
    assert_eq!(state.tick(), TickStep::Decode);
    assert_eq!(state.info, info());
    assert_eq!(state.current_frame, None);
    assert_eq!((state.frames_decoded, state.composites, state.last_log), (0, 0, 17));
}

#[test]
fn failed_probe_opens_nothing() {
    let host = Host { apple: true, eagain: 35 };
    assert_eq!(
        plan_open(Err(DecoderError::NoVideoStream), host),
        Err(DecoderError::NoVideoStream)
    );
}

#[test]
fn player_opens_at_the_probed_size() {
    let host = Host { apple: false, eagain: 11 };
    let plan = plan_open(Ok((3840, 2160)), host).unwrap();
    assert_eq!(
        plan,
        OpenPlan { dst_width: 3840, dst_height: 2160, hwaccel: HwAccel::Auto, host }
    );
    let stream = StreamInfo {
        index: 0,
        time_base: Rational { numerator: 1, denominator: 24 },
        avg_frame_rate: Rational { numerator: 24, denominator: 1 },
    };
    let context = CodecInfo { codec: CodecId { name: String::from("H264") }, configs: None };
    let ready = match plan.from_input(Ok(Some(stream))).unwrap().context_ready(Ok(context)).unwrap() {
        CodecPlan::Open(ready) => ready,
        CodecPlan::CreateDevice { .. } => panic!("no device is used off Apple hosts"),
    };
    let decoder = ready.codec_opened(Ok((3840, 2160))).unwrap();
    let state = RuntimeState::initialize(decoder.info(), 0);
    assert_eq!((state.info.width, state.info.height), decoder.source_size());
    assert_eq!(state.info.hwaccel, ActiveHwAccel::Software);
}

#[test]
fn empty_probed_side_is_one_pixel() {
    let host = Host { apple: true, eagain: 35 };
    let plan = plan_open(Ok((0, 9)), host).unwrap();
    assert_eq!((plan.dst_width, plan.dst_height), (1, 9));
}

#[test]
fn full_counter_takes_the_end() {
    let mut state = RuntimeState::initialize(info(), 0);
    state.frames_decoded = u64::MAX;
    assert_eq!(
        state.frame_decoded(Ok(HwDecodeOutcome::Eof)),
        (TickStep::Done, Some(Notice::EndOfStream))
    );
    assert_eq!(state.frames_decoded, u64::MAX);
}

#[test]
fn decoded_frames_are_drawn() {
    let mut state = RuntimeState::initialize(info(), 0);
    assert_eq!(
        state.frame_decoded(decoded(8, 4)),
        (TickStep::Draw { width: 8, height: 4 }, None)
    );
    assert_eq!(state.current_frame, Some(frame(8, 4)));
    assert_eq!(state.frames_decoded, 1);
    assert_eq!(state.tick(), TickStep::Decode);
    assert_eq!(
        state.frame_decoded(decoded(6, 2)),
        (TickStep::Draw { width: 6, height: 2 }, None)
    );
    assert_eq!(state.frames_decoded, 2);
}

#[test]
fn end_before_the_first_frame() {
    let mut state = RuntimeState::initialize(info(), 0);
    assert_eq!(
        state.frame_decoded(Ok(HwDecodeOutcome::Eof)),
        (TickStep::Done, Some(Notice::EndOfStream))
    );
    assert_eq!(state.tick(), TickStep::Done);
}

#[test]
fn last_frame_stays_after_the_end() {
    let mut state = RuntimeState::initialize(info(), 0);
    state.frame_decoded(decoded(8, 4));
    assert_eq!(
        state.frame_decoded(Ok(HwDecodeOutcome::Eof)),
        (TickStep::Draw { width: 8, height: 4 }, Some(Notice::EndOfStream))
    );
    assert_eq!(state.tick(), TickStep::Draw { width: 8, height: 4 });
    state.frame_drawn(1);
    assert_eq!(state.tick(), TickStep::Draw { width: 8, height: 4 });
}

#[test]
fn errors_stop_decoding() {
    let mut state = RuntimeState::initialize(info(), 0);
    state.frame_decoded(decoded(8, 4));
    assert_eq!(
        state.frame_decoded(Err(DecoderError::NotMetalDevice)),
        (
            TickStep::Draw { width: 8, height: 4 },
            Some(Notice::DecodeError(DecoderError::NotMetalDevice))
        )
    );
    assert!(state.eof_reported);
    assert_eq!(state.frames_decoded, 1);
}

#[test]
fn reports_come_every_second() {
    let mut state = RuntimeState::initialize(info(), 5);
    state.frame_decoded(decoded(8, 4));
    assert_eq!(state.frame_drawn(10), None);
    assert_eq!(state.frame_drawn(4), None);
    assert_eq!(state.frame_drawn(SECOND + 4), None);
    assert_eq!(
        state.frame_drawn(SECOND + 5),
        Some(RateReport { frames_decoded: 1, composites: 4 })
    );
    assert_eq!((state.frames_decoded, state.composites), (0, 0));
    assert_eq!(state.last_log, SECOND + 5);
    assert_eq!(state.frame_drawn(2 * SECOND + 4), None);
    assert_eq!(state.composites, 1);
}

#[test]
fn renderer_events() {
    assert_eq!(on_rendering_state(RenderingState::RenderingSetup, true, false, true), RenderAction::Initialize);
    assert_eq!(on_rendering_state(RenderingState::RenderingSetup, false, false, true), RenderAction::Nothing);
    assert_eq!(on_rendering_state(RenderingState::BeforeRendering, true, true, true), RenderAction::Tick);
    assert_eq!(on_rendering_state(RenderingState::BeforeRendering, true, false, true), RenderAction::Nothing);
    assert_eq!(on_rendering_state(RenderingState::BeforeRendering, true, true, false), RenderAction::Nothing);
    assert_eq!(on_rendering_state(RenderingState::AfterRendering, true, true, true), RenderAction::Nothing);
    assert_eq!(on_rendering_state(RenderingState::RenderingTeardown, true, true, true), RenderAction::Teardown);
}

#[test]
fn status_of_a_video() {
    assert_eq!(
        status_line(Some("clip.mp4"), &info()),
        "clip.mp4  ·  3840x2160  ·  hwaccel = VideoToolbox"
    );
    let mut software = info();
    software.hwaccel = ActiveHwAccel::Software;
    software.width = 7;
    assert_eq!(status_line(None, &software), "?  ·  7x2160  ·  hwaccel = None");
}

#[test]
fn status_of_a_failure() {
    assert_eq!(
        failure_line(&DecoderError::NoVideoStream),
        "initialization failed: no video stream found in input"
    );
}
