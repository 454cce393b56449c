use cutlass::decoder::{
    validate_target, Call, DecodeOutcome, FrameInfo, FrameSource, HwDecodeOutcome, Phase, Progress,
    Reply, Request, ScaleFilter, ScalerConfig, TargetTexture, VideoDecoder, TEXTURE_FORMAT,
};
use cutlass::error::DecoderError;
use cutlass::hw_textures::{extract_nv12_textures, HwFrameTextures, PixelBuffer};
use cutlass::hwaccel::{ActiveHwAccel, DeviceType, HwAccel, HwConfig};
use cutlass::media::{
    CodecId, FfmpegError, FfmpegErrorKind, Host, PixelFormat, Rational, TextureFormat,
};
use cutlass::open::{CodecInfo, CodecPlan, StreamInfo};
use cutlass::upload::UploadSource;

const EAGAIN: i32 = 35;
const YUV420P: PixelFormat = PixelFormat::Other { code: 0 };
const NV12: PixelFormat = PixelFormat::Other { code: 23 };

fn open(hwaccel: HwAccel) -> VideoDecoder {
    let stream = StreamInfo {
        index: 2,
        time_base: Rational { numerator: 1, denominator: 90000 },
        avg_frame_rate: Rational { numerator: 30, denominator: 1 },
    };
    let context = CodecInfo {
        codec: CodecId { name: String::from("HEVC") },
        configs: Some(vec![HwConfig { methods: 1, device_type: DeviceType::VideoToolbox }]),
    };
    let plan = VideoDecoder::open_with(4, 2, hwaccel, Host { apple: true, eagain: EAGAIN });
    let ready = match plan.from_input(Ok(Some(stream))).unwrap().context_ready(Ok(context)).unwrap() {
        CodecPlan::Open(ready) => ready,
        CodecPlan::CreateDevice { stream, .. } => stream.device_ready(0, true).unwrap(),
    };
    ready.codec_opened(Ok((8, 4))).unwrap()
}

fn target(width: u32, height: u32) -> TargetTexture {
    TargetTexture { format: TextureFormat::Rgba8Unorm, width, height }
}

fn again() -> FfmpegError {
    FfmpegError {
        kind: FfmpegErrorKind::Errno { errno: EAGAIN },
        text: String::from("Resource temporarily unavailable"),
    }
}

fn end() -> FfmpegError {
    FfmpegError { kind: FfmpegErrorKind::Eof, text: String::from("End of file") }
}

fn broken() -> FfmpegError {
    FfmpegError {
        kind: FfmpegErrorKind::Tagged { code: -1094995529 },
        text: String::from("Invalid data found when processing input"),
    }
}

fn frame(format: PixelFormat, pts: i64) -> FrameInfo {
    FrameInfo { format, width: 8, height: 4, pts: Some(pts) }
}

fn config(src_format: PixelFormat, dst_width: u32, dst_height: u32) -> ScalerConfig {
    ScalerConfig {
        src_format,
        src_width: 8,
        src_height: 4,
        dst_format: PixelFormat::Rgba,
        dst_width,
        dst_height,
        filter: ScaleFilter::Bilinear,
    }
}

fn textures() -> HwFrameTextures {
    extract_nv12_textures(
        Some(PixelBuffer {
            width: 8,
            height: 4,
            plane_count: 2,
            pixel_format: 0x34323076,
            has_iosurface: true,
        }),
        true,
    )
    .unwrap()
    .assemble(true, true)
    .unwrap()
}

fn ask(request: Request) -> Result<Progress, DecoderError> {
    Ok(Progress::Ask(request))
}

fn eof() -> Result<Progress, DecoderError> {
    Ok(Progress::Decoded(DecodeOutcome::Eof))
}

/// Answer a request, checking first that the decoder waits for the answer.
fn resume(decoder: &mut VideoDecoder, reply: Reply) -> Result<Progress, DecoderError> {
    assert!(decoder.expects(&reply));
    decoder.resume(reply)
}

#[test]
fn targets_are_rgba() {
    assert_eq!(validate_target(TEXTURE_FORMAT), Ok(()));
    assert_eq!(validate_target(TextureFormat::Rgba8Unorm), Ok(()));
    assert_eq!(validate_target(TextureFormat::Rgba8UnormSrgb), Ok(()));
    for format in [
        TextureFormat::R8Unorm,
        TextureFormat::Rg8Unorm,
        TextureFormat::Other { name: String::from("Bgra8Unorm") },
    ] {
        assert_eq!(
            validate_target(format.clone()),
            Err(DecoderError::UnsupportedTextureFormat { format })
        );
    }
}

#[test]
fn frame_at_once() {
    let mut decoder = open(HwAccel::Software);
    assert_eq!(decoder.decode_next(target(4, 2)), ask(Request::ReceiveFrame));
    let wanted = config(YUV420P, 4, 2);
    assert_eq!(
        resume(&mut decoder, Reply::Received(Ok(frame(YUV420P, 7)))),
        ask(Request::BuildScaler(wanted))
    );
    assert_eq!(
        resume(&mut decoder, Reply::ScalerBuilt(Ok(()))),
        ask(Request::RunScaler(FrameSource::Decoded))
    );
    assert_eq!(decoder.scaler(), Some(wanted));
    assert_eq!(resume(&mut decoder, Reply::Scaled(Ok(()))), ask(Request::Upload));
    assert_eq!(
        resume(&mut decoder, Reply::Uploaded),
        Ok(Progress::Decoded(DecodeOutcome::Frame { pts: Some(7) }))
    );
    assert!(!decoder.expects(&Reply::Uploaded));
}

#[test]
fn frame_without_timestamp() {
    let mut decoder = open(HwAccel::Software);
    decoder.decode_next(target(4, 2)).unwrap();
    let bare = FrameInfo { format: YUV420P, width: 8, height: 4, pts: None };
    resume(&mut decoder, Reply::Received(Ok(bare))).unwrap();
    resume(&mut decoder, Reply::ScalerBuilt(Ok(()))).unwrap();
    resume(&mut decoder, Reply::Scaled(Ok(()))).unwrap();
    assert_eq!(
        resume(&mut decoder, Reply::Uploaded),
        Ok(Progress::Decoded(DecodeOutcome::Frame { pts: None }))
    );
}

/// Decode a software frame from the point where the codec returns it.
fn show(decoder: &mut VideoDecoder, pts: i64) -> bool {
    let mut built = false;
    let mut progress = resume(decoder, Reply::Received(Ok(frame(YUV420P, pts)))).unwrap();
    if matches!(progress, Progress::Ask(Request::BuildScaler(_))) {
        built = true;
        progress = resume(decoder, Reply::ScalerBuilt(Ok(()))).unwrap();
    }
    assert_eq!(progress, Progress::Ask(Request::RunScaler(FrameSource::Decoded)));
    resume(decoder, Reply::Scaled(Ok(()))).unwrap();
    assert_eq!(
        resume(decoder, Reply::Uploaded),
        Ok(Progress::Decoded(DecodeOutcome::Frame { pts: Some(pts) }))
    );
    built
}

#[test]
fn scaler_is_kept_for_equal_frames() {
    let mut decoder = open(HwAccel::Software);
    decoder.decode_next(target(4, 2)).unwrap();
    assert!(show(&mut decoder, 1));
    decoder.decode_next(target(4, 2)).unwrap();
    assert!(!show(&mut decoder, 2));
}

#[test]
fn scaler_is_rebuilt_after_a_resize() {
    let mut decoder = open(HwAccel::Software);
    decoder.decode_next(target(4, 2)).unwrap();
    assert!(show(&mut decoder, 1));
    decoder.decode_next(target(6, 3)).unwrap();
    assert_eq!(decoder.scaler(), None);
    assert_eq!((decoder.info().width, decoder.info().height), (6, 3));
    assert!(show(&mut decoder, 2));
    assert_eq!(decoder.scaler(), Some(config(YUV420P, 6, 3)));
}

#[test]
fn scaler_is_rebuilt_for_other_frames() {
    let mut decoder = open(HwAccel::Software);
    decoder.decode_next(target(4, 2)).unwrap();
    show(&mut decoder, 1);
    decoder.decode_next(target(4, 2)).unwrap();
    assert_eq!(
        resume(&mut decoder, Reply::Received(Ok(frame(NV12, 2)))),
        ask(Request::BuildScaler(config(NV12, 4, 2)))
    );
    // The old scaler stays until there is a new one.
    assert_eq!(decoder.scaler(), Some(config(YUV420P, 4, 2)));
    assert_eq!(
        resume(&mut decoder, Reply::ScalerBuilt(Err(broken()))),
        Err(DecoderError::Ffmpeg(broken()))
    );
    assert_eq!(decoder.scaler(), Some(config(YUV420P, 4, 2)));
}

#[test]
fn packets_of_other_streams_are_skipped() {
    let mut decoder = open(HwAccel::Software);
    decoder.decode_next(target(4, 2)).unwrap();
    assert_eq!(
        resume(&mut decoder, Reply::Received(Err(again()))),
        ask(Request::ReadPacket)
    );
    assert_eq!(resume(&mut decoder, Reply::PacketRead(Ok(0))), ask(Request::ReadPacket));
    assert_eq!(resume(&mut decoder, Reply::PacketRead(Ok(1))), ask(Request::ReadPacket));
    assert_eq!(resume(&mut decoder, Reply::PacketRead(Ok(2))), ask(Request::SendPacket));
    assert_eq!(
        resume(&mut decoder, Reply::PacketSent(Ok(()))),
        ask(Request::ReceiveFrame)
    );
    show(&mut decoder, 3);
}

#[test]
fn stream_is_drained() {
    let mut decoder = open(HwAccel::Software);
    decoder.decode_next(target(4, 2)).unwrap();
    resume(&mut decoder, Reply::Received(Err(again()))).unwrap();
    assert_eq!(
        resume(&mut decoder, Reply::PacketRead(Err(end()))),
        ask(Request::SendEof)
    );
    assert_eq!(
        resume(&mut decoder, Reply::EofSent(Ok(()))),
        ask(Request::ReceiveFrame)
    );
    // The codec still holds a frame.
    show(&mut decoder, 8);
    decoder.decode_next(target(4, 2)).unwrap();
    // No packet is read any more.
    assert_eq!(
        resume(&mut decoder, Reply::Received(Err(again()))),
        ask(Request::ReceiveFrame)
    );
    assert_eq!(resume(&mut decoder, Reply::Received(Err(end()))), eof());
    for err in [again(), end()] {
        decoder.decode_next(target(4, 2)).unwrap();
        assert_eq!(resume(&mut decoder, Reply::Received(Err(err))), eof());
    }
}

#[test]
fn a_failed_flush_is_tried_again() {
    let mut decoder = open(HwAccel::Software);
    decoder.decode_next(target(4, 2)).unwrap();
    resume(&mut decoder, Reply::Received(Err(again()))).unwrap();
    resume(&mut decoder, Reply::PacketRead(Err(end()))).unwrap();
    assert_eq!(
        resume(&mut decoder, Reply::EofSent(Err(broken()))),
        Err(DecoderError::Ffmpeg(broken()))
    );
    decoder.decode_next(target(4, 2)).unwrap();
    assert_eq!(
        resume(&mut decoder, Reply::Received(Err(again()))),
        ask(Request::ReadPacket)
    );
}

#[test]
fn ffmpeg_errors_end_the_call() {
    let failed = || Err(DecoderError::Ffmpeg(broken()));
    let mut decoder = open(HwAccel::Software);
    decoder.decode_next(target(4, 2)).unwrap();
    assert_eq!(resume(&mut decoder, Reply::Received(Err(broken()))), failed());

    decoder.decode_next(target(4, 2)).unwrap();
    resume(&mut decoder, Reply::Received(Err(again()))).unwrap();
    assert_eq!(resume(&mut decoder, Reply::PacketRead(Err(broken()))), failed());

    // Only the codec asks for more input.
    decoder.decode_next(target(4, 2)).unwrap();
    resume(&mut decoder, Reply::Received(Err(again()))).unwrap();
    assert_eq!(
        resume(&mut decoder, Reply::PacketRead(Err(again()))),
        Err(DecoderError::Ffmpeg(again()))
    );

    decoder.decode_next(target(4, 2)).unwrap();
    resume(&mut decoder, Reply::Received(Err(again()))).unwrap();
    resume(&mut decoder, Reply::PacketRead(Ok(2))).unwrap();
    assert_eq!(resume(&mut decoder, Reply::PacketSent(Err(broken()))), failed());

    decoder.decode_next(target(4, 2)).unwrap();
    resume(&mut decoder, Reply::Received(Ok(frame(YUV420P, 1)))).unwrap();
    resume(&mut decoder, Reply::ScalerBuilt(Ok(()))).unwrap();
    assert_eq!(resume(&mut decoder, Reply::Scaled(Err(broken()))), failed());

    // The decoder goes on after all of them.
    decoder.decode_next(target(4, 2)).unwrap();
    assert!(!show(&mut decoder, 5));
}

#[test]
fn another_errno_is_an_error() {
    let other = FfmpegError {
        kind: FfmpegErrorKind::Errno { errno: EAGAIN + 1 },
        text: String::from("Operation now in progress"),
    };
    let mut decoder = open(HwAccel::Software);
    decoder.decode_next(target(4, 2)).unwrap();
    assert_eq!(
        resume(&mut decoder, Reply::Received(Err(other.clone()))),
        Err(DecoderError::Ffmpeg(other))
    );
}

#[test]
fn unsupported_target_changes_nothing() {
    let mut decoder = open(HwAccel::Software);
    decoder.decode_next(target(4, 2)).unwrap();
    show(&mut decoder, 1);
    let refused = TargetTexture { format: TextureFormat::R8Unorm, width: 9, height: 9 };
    assert_eq!(
        decoder.decode_next(refused),
        Err(DecoderError::UnsupportedTextureFormat { format: TextureFormat::R8Unorm })
    );
    assert_eq!((decoder.info().width, decoder.info().height), (4, 2));
    assert_eq!(decoder.scaler(), Some(config(YUV420P, 4, 2)));
}

#[test]
fn hardware_frames_are_transferred_for_upload() {
    let mut decoder = open(HwAccel::VideoToolbox);
    decoder.decode_next(target(4, 2)).unwrap();
    assert_eq!(
        resume(&mut decoder, Reply::Received(Ok(frame(PixelFormat::VideoToolbox, 11)))),
        ask(Request::TransferFrame)
    );
    let copy = FrameInfo { format: NV12, width: 8, height: 4, pts: None };
    assert_eq!(
        resume(&mut decoder, Reply::Transferred { status: 0, copy }),
        ask(Request::BuildScaler(config(NV12, 4, 2)))
    );
    assert_eq!(
        resume(&mut decoder, Reply::ScalerBuilt(Ok(()))),
        ask(Request::RunScaler(FrameSource::Transferred))
    );
    resume(&mut decoder, Reply::Scaled(Ok(()))).unwrap();
    assert_eq!(
        resume(&mut decoder, Reply::Uploaded),
        Ok(Progress::Decoded(DecodeOutcome::Frame { pts: Some(11) }))
    );
}

#[test]
fn failed_transfer() {
    let mut decoder = open(HwAccel::VideoToolbox);
    decoder.decode_next(target(4, 2)).unwrap();
    resume(&mut decoder, Reply::Received(Ok(frame(PixelFormat::VideoToolbox, 1)))).unwrap();
    let copy = FrameInfo { format: NV12, width: 0, height: 0, pts: None };
    assert_eq!(
        resume(&mut decoder, Reply::Transferred { status: -38, copy }),
        Err(DecoderError::HwTransfer(-38))
    );
}

#[test]
fn software_frames_of_a_hardware_codec_are_scaled_directly() {
    let mut decoder = open(HwAccel::VideoToolbox);
    decoder.decode_next(target(4, 2)).unwrap();
    assert_eq!(
        resume(&mut decoder, Reply::Received(Ok(frame(YUV420P, 1)))),
        ask(Request::BuildScaler(config(YUV420P, 4, 2)))
    );
}

#[test]
fn hardware_call() {
    let mut decoder = open(HwAccel::VideoToolbox);
    assert_eq!(decoder.hwaccel(), ActiveHwAccel::VideoToolbox);
    assert_eq!(decoder.decode_next_hw(), ask(Request::ReceiveFrame));
    resume(&mut decoder, Reply::Received(Err(again()))).unwrap();
    resume(&mut decoder, Reply::PacketRead(Ok(2))).unwrap();
    resume(&mut decoder, Reply::PacketSent(Ok(()))).unwrap();
    assert_eq!(
        resume(&mut decoder, Reply::Received(Ok(frame(PixelFormat::VideoToolbox, 21)))),
        ask(Request::ExtractTextures)
    );
    assert_eq!(
        resume(&mut decoder, Reply::Extracted(Ok(textures()))),
        Ok(Progress::DecodedHw(HwDecodeOutcome::Frame { textures: textures(), pts: Some(21) }))
    );
    decoder.decode_next_hw().unwrap();
    assert_eq!(
        resume(&mut decoder, Reply::Received(Err(end()))),
        Ok(Progress::DecodedHw(HwDecodeOutcome::Eof))
    );
}

#[test]
fn hardware_call_without_hardware() {
    let mut decoder = open(HwAccel::Software);
    assert_eq!(
        decoder.decode_next_hw(),
        Err(DecoderError::HwAccelNotActive(ActiveHwAccel::Software))
    );
}

#[test]
fn hardware_call_on_a_software_frame() {
    let mut decoder = open(HwAccel::VideoToolbox);
    decoder.decode_next_hw().unwrap();
    assert_eq!(
        resume(&mut decoder, Reply::Received(Ok(frame(YUV420P, 1)))),
        Err(DecoderError::HwAccelNotActive(ActiveHwAccel::Software))
    );
}

#[test]
fn failed_extraction() {
    let mut decoder = open(HwAccel::VideoToolbox);
    decoder.decode_next_hw().unwrap();
    resume(&mut decoder, Reply::Received(Ok(frame(PixelFormat::VideoToolbox, 1)))).unwrap();
    assert_eq!(
        resume(&mut decoder, Reply::Extracted(Err(DecoderError::NotMetalDevice))),
        Err(DecoderError::NotMetalDevice)
    );
}

#[test]
fn upload_of_the_scaled_frame() {
    let mut decoder = open(HwAccel::Software);
    decoder.decode_next(target(1, 2)).unwrap();
    resume(&mut decoder, Reply::Received(Ok(frame(YUV420P, 1)))).unwrap();
    resume(&mut decoder, Reply::ScalerBuilt(Ok(()))).unwrap();
    resume(&mut decoder, Reply::Scaled(Ok(()))).unwrap();
    let plane = [1, 2, 3, 4, 0, 0, 5, 6, 7, 8, 0, 0];
    let upload = decoder.prepare_upload(&plane, 6);
    assert_eq!(upload.source, UploadSource::Scratch);
    assert_eq!((upload.layout.width, upload.layout.height), (1, 2));
    assert_eq!(decoder.upload_scratch(), &[1, 2, 3, 4, 5, 6, 7, 8]);
    assert_eq!(decoder.prepare_upload(&plane, 4).source, UploadSource::Plane);
    assert_eq!(decoder.upload_scratch(), &[1, 2, 3, 4, 5, 6, 7, 8]);
}

#[test]
fn replies_are_expected_one_at_a_time() {
    let mut decoder = open(HwAccel::Software);
    assert!(!decoder.expects(&Reply::Received(Err(again()))));
    decoder.decode_next(target(4, 2)).unwrap();
    assert!(decoder.expects(&Reply::Received(Err(again()))));
    for reply in [
        Reply::PacketRead(Ok(2)),
        Reply::PacketSent(Ok(())),
        Reply::EofSent(Ok(())),
        Reply::Transferred { status: 0, copy: frame(NV12, 1) },
        Reply::ScalerBuilt(Ok(())),
        Reply::Scaled(Ok(())),
        Reply::Uploaded,
        Reply::Extracted(Ok(textures())),
    ] {
        assert!(!decoder.expects(&reply));
    }
}

#[test]
fn pump_asks_for_a_packet() {
    let mut decoder = open(HwAccel::Software);
    assert_eq!(decoder.decode_next(target(4, 2)), ask(Request::ReceiveFrame));
    assert_eq!(decoder.pump_packet(Call::Software), ask(Request::ReadPacket));
    assert_eq!(resume(&mut decoder, Reply::PacketRead(Ok(0))), ask(Request::ReadPacket));
    assert_eq!(resume(&mut decoder, Reply::PacketRead(Ok(5))), ask(Request::ReadPacket));
    assert_eq!(resume(&mut decoder, Reply::PacketRead(Ok(2))), ask(Request::SendPacket));
    assert_eq!(resume(&mut decoder, Reply::PacketSent(Ok(()))), ask(Request::ReceiveFrame));
}

#[test]
fn waiting_and_drained_can_be_read() {
    let mut decoder = open(HwAccel::Software);
    assert_eq!(decoder.phase(), Phase::Idle);
    assert!(!decoder.drained());
    assert_eq!(decoder.decode_next(target(4, 2)), ask(Request::ReceiveFrame));
    assert_eq!(decoder.phase(), Phase::Receiving { call: Call::Software });
    assert_eq!(resume(&mut decoder, Reply::Received(Err(end()))), eof());
    assert_eq!(decoder.phase(), Phase::Idle);
    assert!(decoder.drained());
}

#[test]
fn pump_flushes_once() {
    let mut decoder = open(HwAccel::Software);
    assert_eq!(decoder.decode_next(target(4, 2)), ask(Request::ReceiveFrame));
    assert_eq!(decoder.pump_packet(Call::Software), ask(Request::ReadPacket));
    assert_eq!(resume(&mut decoder, Reply::PacketRead(Ok(0))), ask(Request::ReadPacket));
    assert_eq!(resume(&mut decoder, Reply::PacketRead(Err(end()))), ask(Request::SendEof));
    assert_eq!(resume(&mut decoder, Reply::EofSent(Ok(()))), ask(Request::ReceiveFrame));
    for _ in 0..3 {
        assert_eq!(decoder.pump_packet(Call::Software), ask(Request::ReceiveFrame));
        assert!(decoder.expects(&Reply::Received(Err(again()))));
    }
    assert_eq!(decoder.decode_next(target(8, 8)), ask(Request::ReceiveFrame));
    assert_eq!(decoder.pump_packet(Call::Software), ask(Request::ReceiveFrame));
}

#[test]
fn refused_flush_can_be_tried_again() {
    let mut decoder = open(HwAccel::VideoToolbox);
    for sent in [Err(broken()), Ok(())] {
        assert_eq!(decoder.decode_next_hw(), ask(Request::ReceiveFrame));
        assert_eq!(decoder.pump_packet(Call::Hardware), ask(Request::ReadPacket));
        assert_eq!(resume(&mut decoder, Reply::PacketRead(Err(end()))), ask(Request::SendEof));
        let wanted = match &sent {
            Ok(()) => ask(Request::ReceiveFrame),
            Err(_) => Err(DecoderError::Ffmpeg(broken())),
        };
        assert_eq!(resume(&mut decoder, Reply::EofSent(sent)), wanted);
    }
    assert_eq!(decoder.pump_packet(Call::Hardware), ask(Request::ReceiveFrame));
}

#[test]
fn frames_are_uploaded_once() {
    let mut decoder = open(HwAccel::Software);
    let mut uploads = Vec::new();
    for pts in [1, 2, 3] {
        let mut asked = 0;
        let mut progress = decoder.decode_next(target(4, 2));
        loop {
            let reply = match progress {
                Ok(Progress::Ask(Request::ReceiveFrame)) if pts == 3 => Reply::Received(Err(end())),
                Ok(Progress::Ask(Request::ReceiveFrame)) => {
                    Reply::Received(Ok(frame(YUV420P, pts)))
                }
                Ok(Progress::Ask(Request::BuildScaler(_))) => Reply::ScalerBuilt(Ok(())),
                Ok(Progress::Ask(Request::RunScaler(_))) if pts == 2 => {
                    Reply::Scaled(Err(broken()))
                }
                Ok(Progress::Ask(Request::RunScaler(_))) => Reply::Scaled(Ok(())),
                Ok(Progress::Ask(Request::Upload)) => {
                    asked += 1;
                    Reply::Uploaded
                }
                _ => break,
            };
            progress = resume(&mut decoder, reply);
        }
        uploads.push((asked, progress));
    }
    assert_eq!(
        uploads,
        vec![
            (1, Ok(Progress::Decoded(DecodeOutcome::Frame { pts: Some(1) }))),
            (0, Err(DecoderError::Ffmpeg(broken()))),
            (0, eof()),
        ]
    );
}
