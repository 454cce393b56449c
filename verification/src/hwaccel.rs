//! Choice and negotiation of the hardware acceleration of a decoder.

use crate::error::{active_name, active_text, hwaccel_name, hwaccel_text, DecoderError};
use crate::media::{CodecId, Host, PixelFormat};
use crate::text::{write_text, written};
use vstd::prelude::*;
use vstd::string::*;

verus! {

/// Which hardware acceleration backend to try when opening a stream.
#[derive(Clone, Copy, PartialEq, Eq, Structural)]
pub enum HwAccel {
    /// Force software (CPU) decode.
    Software,
    /// Pick a sensible backend for the host: VideoToolbox on macOS and iOS,
    /// software elsewhere.
    Auto,
    /// Apple VideoToolbox.
    VideoToolbox,
}

impl Default for HwAccel {
    fn default() -> (r: HwAccel)
        ensures
            r == HwAccel::Auto,
    {
        HwAccel::Auto
    }
}

impl core::fmt::Debug for HwAccel {
    /// Write the name of the backend, which is `None` for software.
    fn fmt(&self, f: &mut core::fmt::Formatter<'_>) -> (r: core::fmt::Result)
        ensures
            r is Ok ==> written(*final(f)) == written(*old(f)) + hwaccel_name(*self),
    {
        write_text(f, hwaccel_text(*self))
    }
}

/// The backend actually negotiated for an open decoder.
#[derive(Clone, Copy, PartialEq, Eq, Structural)]
pub enum ActiveHwAccel {
    /// Frames are decoded on the CPU.
    Software,
    /// Frames are decoded by VideoToolbox.
    VideoToolbox,
}

impl core::fmt::Debug for ActiveHwAccel {
    /// Write the name of the backend, which is `None` for software.
    fn fmt(&self, f: &mut core::fmt::Formatter<'_>) -> (r: core::fmt::Result)
        ensures
            r is Ok ==> written(*final(f)) == written(*old(f)) + active_name(*self),
    {
        write_text(f, active_text(*self))
    }
}

/// A kind of hardware device that FFmpeg can decode on.
#[derive(Debug, Clone, Copy, PartialEq, Eq, Structural)]
pub enum DeviceType {
    VideoToolbox,
    /// Any other kind, by its FFmpeg code.
    Other { code: i32 },
}

/// One of the hardware configurations that a codec advertises.
#[derive(Debug, Clone, Copy, PartialEq, Eq, Structural)]
pub struct HwConfig {
    /// The ways in which the codec can be set up, as a set of bits.
    pub methods: i32,
    /// The kind of device of the configuration.
    pub device_type: DeviceType,
}

/// The bit of [`HwConfig::methods`] that says that the codec takes a device
/// context.
pub const METHOD_HW_DEVICE_CTX: i32 = 0x01;

/// Why a decoder that was free to choose decodes in software.
#[derive(Debug, Clone, Copy, PartialEq, Eq, Structural)]
pub enum FallbackReason {
    /// There is no decoder for the stream.
    NoDecoder,
    /// The codec does not advertise the device.
    NotAdvertised,
    /// The device could not be created.
    DeviceInit(i32),
}

impl FallbackReason {
    /// What the user is told of the reason.
    pub open spec fn spec_message(self) -> Seq<char> {
        match self {
            FallbackReason::NoDecoder => "no decoder found for stream"@,
            FallbackReason::NotAdvertised =>
                "codec does not advertise the requested hwaccel device"@,
            FallbackReason::DeviceInit(status) => "av_hwdevice_ctx_create failed: "@
                + DecoderError::HwDeviceInit(status).spec_message(),
        }
    }

    /// The message of the reason.
    pub fn message(&self) -> (r: String)
        ensures
            r@ == self.spec_message(),
    {
        let mut out = String::new();
        match self {
            FallbackReason::NoDecoder => {
                out.append("no decoder found for stream");
            },
            FallbackReason::NotAdvertised => {
                out.append("codec does not advertise the requested hwaccel device");
            },
            FallbackReason::DeviceInit(status) => {
                out.append("av_hwdevice_ctx_create failed: ");
                out.append(DecoderError::HwDeviceInit(*status).message().as_str());
            },
        }
        assert(out@ =~= self.spec_message());
        out
    }
}

/// The state of a negotiation once the codec was probed.
#[derive(Debug, Clone, Copy, PartialEq, Eq, Structural)]
pub enum HwSetup {
    /// Decode in software. The reason says why, where hardware was wanted.
    Software(Option<FallbackReason>),
    /// Create a device of this kind, and attach it to the codec.
    CreateDevice(DeviceType),
}

/// The end of a negotiation.
#[derive(Debug, Clone, Copy, PartialEq, Eq, Structural)]
pub struct Negotiated {
    pub active: ActiveHwAccel,
    /// Why hardware that was wanted is not used.
    pub fallback: Option<FallbackReason>,
}

/// What a request means on a host.
pub open spec fn resolved(requested: HwAccel, host: Host) -> HwAccel {
    if requested != HwAccel::Auto {
        requested
    } else if host.apple {
        HwAccel::VideoToolbox
    } else {
        HwAccel::Software
    }
}

/// Replace [`HwAccel::Auto`] by the backend that suits the host.
pub fn resolve_hwaccel(requested: HwAccel, host: Host) -> (r: HwAccel)
    ensures
        r == resolved(requested, host),
{
    match requested {
        HwAccel::Auto => {
            if host.apple {
                HwAccel::VideoToolbox
            } else {
                HwAccel::Software
            }
        },
        other => other,
    }
}

/// A resolved request names a backend, and one that names a backend is left as
/// it is.
pub proof fn law_resolved_is_definite(requested: HwAccel, host: Host)
    ensures
        resolved(requested, host) != HwAccel::Auto,
        requested != HwAccel::Auto ==> resolved(requested, host) == requested,
        resolved(resolved(requested, host), host) == resolved(requested, host),
{
}

/// Whether a configuration takes a device context of the given kind.
pub open spec fn config_matches(config: HwConfig, device_type: DeviceType) -> bool {
    config.methods & METHOD_HW_DEVICE_CTX != 0 && config.device_type == device_type
}

/// Whether a codec that advertises `configs` can decode on a device context of
/// the given kind.
pub open spec fn supports_device(configs: Seq<HwConfig>, device_type: DeviceType) -> bool {
    exists|i: int| 0 <= i < configs.len() && config_matches(#[trigger] configs[i], device_type)
}

/// Search the hardware configurations of a codec.
pub fn codec_supports_hwaccel(configs: &[HwConfig], device_type: DeviceType) -> (r: bool)
    ensures
        r == supports_device(configs@, device_type),
{
    let mut i: usize = 0;
    while i < configs.len()
        invariant
            i <= configs@.len(),
            forall|j: int| 0 <= j < i ==> !config_matches(#[trigger] configs@[j], device_type),
        decreases configs@.len() - i,
    {
        let config = configs[i];
        if (config.methods & METHOD_HW_DEVICE_CTX) != 0 && config.device_type == device_type {
            assert(config_matches(configs@[i as int], device_type));
            return true;
        }
        i += 1;
    }
    false
}

/// Fall back to software where the caller left the choice open, and refuse
/// otherwise.
pub open spec fn fallback(
    original_request: HwAccel,
    codec: CodecId,
    reason: FallbackReason,
) -> Result<HwSetup, DecoderError> {
    if original_request == HwAccel::Auto {
        Ok(HwSetup::Software(Some(reason)))
    } else {
        Err(DecoderError::HwAccelUnsupported { requested: original_request, codec })
    }
}

/// Fall back to software where the caller left the choice open, and refuse
/// otherwise.
pub fn fallback_or_error(original_request: HwAccel, codec: CodecId, reason: FallbackReason) -> (r:
    Result<HwSetup, DecoderError>)
    ensures
        r == fallback(original_request, codec, reason),
{
    match original_request {
        HwAccel::Auto => Ok(HwSetup::Software(Some(reason))),
        _ => Err(DecoderError::HwAccelUnsupported { requested: original_request, codec }),
    }
}

/// What a negotiation comes to, before a device is created. `configs` are the
/// hardware configurations of the stream's decoder, where there is a decoder.
pub open spec fn hw_setup(
    configs: Option<Seq<HwConfig>>,
    codec: CodecId,
    original_request: HwAccel,
    resolved_request: HwAccel,
) -> Result<HwSetup, DecoderError> {
    if resolved_request != HwAccel::VideoToolbox {
        Ok(HwSetup::Software(None))
    } else {
        match configs {
            None => fallback(original_request, codec, FallbackReason::NoDecoder),
            Some(configs) => if supports_device(configs, DeviceType::VideoToolbox) {
                Ok(HwSetup::CreateDevice(DeviceType::VideoToolbox))
            } else {
                fallback(original_request, codec, FallbackReason::NotAdvertised)
            },
        }
    }
}

/// The configurations of a decoder, as a sequence.
pub open spec fn configs_view(configs: Option<&[HwConfig]>) -> Option<Seq<HwConfig>> {
    match configs {
        None => None,
        Some(configs) => Some(configs@),
    }
}

/// Decide whether to decode on hardware, and on which.
///
/// `resolved` is `original_request` after [`resolve_hwaccel`], so never
/// [`HwAccel::Auto`]. `configs` are the hardware configurations of the
/// stream's decoder, where FFmpeg has a decoder for it.
pub fn setup_hwaccel(
    configs: Option<&[HwConfig]>,
    codec: CodecId,
    original_request: HwAccel,
    resolved: HwAccel,
) -> (r: Result<HwSetup, DecoderError>)
    requires
        resolved != HwAccel::Auto,
    ensures
        r == hw_setup(configs_view(configs), codec, original_request, resolved),
{
    let device_type = match resolved {
        HwAccel::VideoToolbox => DeviceType::VideoToolbox,
        _ => {
            return Ok(HwSetup::Software(None));
        },
    };
    match configs {
        None => fallback_or_error(original_request, codec, FallbackReason::NoDecoder),
        Some(configs) => {
            if !codec_supports_hwaccel(configs, device_type) {
                return fallback_or_error(original_request, codec, FallbackReason::NotAdvertised);
            }
            Ok(HwSetup::CreateDevice(device_type))
        },
    }
}

/// Whether a device was created: FFmpeg reported no error and handed out a
/// device.
pub open spec fn device_ok(status: i32, present: bool) -> bool {
    status >= 0 && present
}

/// What a negotiation comes to once FFmpeg was asked for a device.
pub open spec fn after_device(
    original_request: HwAccel,
    status: i32,
    present: bool,
) -> Result<Negotiated, DecoderError> {
    if device_ok(status, present) {
        Ok(Negotiated { active: ActiveHwAccel::VideoToolbox, fallback: None })
    } else if original_request == HwAccel::Auto {
        Ok(
            Negotiated {
                active: ActiveHwAccel::Software,
                fallback: Some(FallbackReason::DeviceInit(status)),
            },
        )
    } else {
        Err(DecoderError::HwDeviceInit(status))
    }
}

/// Judge the creation of a device: `status` is what FFmpeg returned, and
/// `present` says whether it handed out a device.
pub fn device_created(status: i32, present: bool) -> (r: Result<(), DecoderError>)
    ensures
        device_ok(status, present) ==> r == Ok::<(), DecoderError>(()),
        !device_ok(status, present) ==> r == Err::<(), DecoderError>(
            DecoderError::HwDeviceInit(status),
        ),
{
    if status < 0 || !present {
        return Err(DecoderError::HwDeviceInit(status));
    }
    Ok(())
}

/// Finish a negotiation that asked for a device.
pub fn finish_hwaccel(original_request: HwAccel, status: i32, present: bool) -> (r: Result<
    Negotiated,
    DecoderError,
>)
    ensures
        r == after_device(original_request, status, present),
{
    match device_created(status, present) {
        Ok(()) => Ok(Negotiated { active: ActiveHwAccel::VideoToolbox, fallback: None }),
        Err(err) => match original_request {
            HwAccel::Auto => Ok(
                Negotiated {
                    active: ActiveHwAccel::Software,
                    fallback: Some(FallbackReason::DeviceInit(status)),
                },
            ),
            _ => Err(err),
        },
    }
}

/// The pixel format that a hardware decoder is given, where one is chosen.
pub open spec fn chosen_format(offered: Seq<PixelFormat>) -> Option<PixelFormat> {
    if offered.contains(PixelFormat::VideoToolbox) {
        Some(PixelFormat::VideoToolbox)
    } else {
        None
    }
}

/// Choose the pixel format of a hardware decoder among those on offer.
///
/// `None` leaves the choice to FFmpeg, which then picks the software format
/// that it prefers.
pub fn get_videotoolbox_format(offered: &[PixelFormat]) -> (r: Option<PixelFormat>)
    ensures
        r == chosen_format(offered@),
        r == (if offered@.contains(PixelFormat::VideoToolbox) {
            Some(PixelFormat::VideoToolbox)
        } else {
            None
        }),
{
    let mut i: usize = 0;
    while i < offered.len()
        invariant
            i <= offered@.len(),
            forall|j: int| 0 <= j < i ==> offered@[j] != PixelFormat::VideoToolbox,
        decreases offered@.len() - i,
    {
        if offered[i] == PixelFormat::VideoToolbox {
            return Some(PixelFormat::VideoToolbox);
        }
        i += 1;
    }
    None
}

/// A request is only ever replaced where the choice was left open, and then by
/// VideoToolbox on Apple hosts and by software on all others.
pub proof fn law_auto_follows_host(requested: HwAccel, host: Host)
    ensures
        resolved(requested, host) == HwAccel::VideoToolbox <==> (requested
            == HwAccel::VideoToolbox || (requested == HwAccel::Auto && host.apple)),
        resolved(requested, host) == HwAccel::Software <==> (requested == HwAccel::Software || (
        requested == HwAccel::Auto && !host.apple)),
{
}

/// A codec supports a device if and only if one of its configurations names
/// that device and has the lowest bit of its methods set.
pub proof fn law_support_is_the_lowest_bit(configs: Seq<HwConfig>, device_type: DeviceType)
    ensures
        supports_device(configs, device_type) <==> (exists|i: int|
            0 <= i < configs.len() && (#[trigger] configs[i]).methods & 0x01i32 != 0
                && configs[i].device_type == device_type),
{
    if supports_device(configs, device_type) {
        let i = choose|i: int|
            0 <= i < configs.len() && config_matches(#[trigger] configs[i], device_type);
        assert(configs[i].methods & 0x01i32 != 0 && configs[i].device_type == device_type);
    }
    if exists|i: int|
        0 <= i < configs.len() && (#[trigger] configs[i]).methods & 0x01i32 != 0
            && configs[i].device_type == device_type {
        let i = choose|i: int|
            0 <= i < configs.len() && (#[trigger] configs[i]).methods & 0x01i32 != 0
                && configs[i].device_type == device_type;
        assert(config_matches(configs[i], device_type));
    }
}

/// Codecs whose configurations name the same devices and agree in the lowest
/// bit of each one's methods support the same devices, whatever the other bits
/// are.
pub proof fn law_other_methods_do_not_count(
    a: Seq<HwConfig>,
    b: Seq<HwConfig>,
    device_type: DeviceType,
)
    requires
        a.len() == b.len(),
        forall|i: int|
            0 <= i < a.len() ==> (#[trigger] a[i]).device_type == b[i].device_type && a[i].methods
                & 0x01i32 == b[i].methods & 0x01i32,
    ensures
        supports_device(a, device_type) == supports_device(b, device_type),
{
    law_support_is_the_lowest_bit(a, device_type);
    law_support_is_the_lowest_bit(b, device_type);
    if supports_device(a, device_type) {
        let i = choose|i: int|
            0 <= i < a.len() && (#[trigger] a[i]).methods & 0x01i32 != 0 && a[i].device_type
                == device_type;
        assert(b[i].methods & 0x01i32 != 0 && b[i].device_type == device_type);
    }
    if supports_device(b, device_type) {
        let i = choose|i: int|
            0 <= i < b.len() && (#[trigger] b[i]).methods & 0x01i32 != 0 && b[i].device_type
                == device_type;
        assert(a[i].methods & 0x01i32 != 0 && a[i].device_type == device_type);
    }
}

/// Adding bits to the methods of a configuration never changes what a codec
/// supports, unless the lowest is among them.
pub proof fn law_more_methods_change_nothing(
    configs: Seq<HwConfig>,
    at: int,
    more: i32,
    device_type: DeviceType,
)
    requires
        0 <= at < configs.len(),
        more & 0x01i32 == 0,
    ensures
        supports_device(
            configs.update(
                at,
                HwConfig { methods: configs[at].methods | more, ..configs[at] },
            ),
            device_type,
        ) == supports_device(configs, device_type),
{
    let methods = configs[at].methods;
    assert((methods | more) & 0x01i32 == methods & 0x01i32) by (bit_vector)
        requires
            more & 0x01i32 == 0,
    ;
    let changed = configs.update(at, HwConfig { methods: methods | more, ..configs[at] });
    law_other_methods_do_not_count(changed, configs, device_type);
}

/// A codec that gains a configuration supports all that it did before, and the
/// order of the configurations is of no account.
pub proof fn law_any_configuration_will_do(
    before: Seq<HwConfig>,
    config: HwConfig,
    after: Seq<HwConfig>,
    device_type: DeviceType,
)
    ensures
        supports_device(before + seq![config] + after, device_type) <==> (supports_device(
            before,
            device_type,
        ) || supports_device(after, device_type) || (config.methods & 0x01i32 != 0
            && config.device_type == device_type)),
        !supports_device(Seq::empty(), device_type),
{
    let all = before + seq![config] + after;
    if supports_device(all, device_type) {
        let i = choose|i: int| 0 <= i < all.len() && config_matches(#[trigger] all[i], device_type);
        if i < before.len() {
            assert(config_matches(before[i], device_type));
        } else if i > before.len() {
            assert(config_matches(after[i - before.len() - 1], device_type));
        }
    }
    if supports_device(before, device_type) {
        let i = choose|i: int|
            0 <= i < before.len() && config_matches(#[trigger] before[i], device_type);
        assert(config_matches(all[i], device_type));
    }
    if supports_device(after, device_type) {
        let i = choose|i: int|
            0 <= i < after.len() && config_matches(#[trigger] after[i], device_type);
        assert(config_matches(all[before.len() + 1 + i], device_type));
    }
    assert(all[before.len() as int] == config);
    if config.methods & 0x01i32 != 0 && config.device_type == device_type {
        assert(config_matches(all[before.len() as int], device_type));
    }
}

/// A device is created exactly where VideoToolbox is to be used and a
/// configuration of the codec's decoder takes its context. Where none does, a
/// caller who left the choice open is told why software is used, and any other
/// is refused with the request and the codec.
pub proof fn law_setup_is_met_or_explained(
    configs: Option<Seq<HwConfig>>,
    codec: CodecId,
    original_request: HwAccel,
    resolved_request: HwAccel,
)
    ensures
        ({
            let r = hw_setup(configs, codec, original_request, resolved_request);
            let wanted = resolved_request == HwAccel::VideoToolbox;
            let able = configs matches Some(configs) && exists|i: int|
                0 <= i < configs.len() && (#[trigger] configs[i]).methods & 0x01i32 != 0
                    && configs[i].device_type == DeviceType::VideoToolbox;
            &&& !wanted ==> r == Ok::<HwSetup, DecoderError>(HwSetup::Software(None))
            &&& wanted && able ==> r == Ok::<HwSetup, DecoderError>(
                HwSetup::CreateDevice(DeviceType::VideoToolbox),
            )
            &&& wanted && !able && original_request == HwAccel::Auto ==> r == Ok::<
                HwSetup,
                DecoderError,
            >(
                HwSetup::Software(
                    Some(
                        if configs is None {
                            FallbackReason::NoDecoder
                        } else {
                            FallbackReason::NotAdvertised
                        },
                    ),
                ),
            )
            &&& wanted && !able && original_request != HwAccel::Auto ==> r == Err::<
                HwSetup,
                DecoderError,
            >(DecoderError::HwAccelUnsupported { requested: original_request, codec })
        }),
{
    if configs is Some {
        law_support_is_the_lowest_bit(configs->0, DeviceType::VideoToolbox);
    }
}

/// Only a caller who left the choice open falls back, and is told the reason;
/// any other is refused with their request and the codec.
pub proof fn law_fallback_needs_auto(
    original_request: HwAccel,
    codec: CodecId,
    reason: FallbackReason,
)
    ensures
        fallback(original_request, codec, reason) is Ok <==> original_request == HwAccel::Auto,
        fallback(original_request, codec, reason) matches Ok(setup) ==> setup == HwSetup::Software(
            Some(reason),
        ),
        fallback(original_request, codec, reason) matches Err(err) ==> err == (
        DecoderError::HwAccelUnsupported { requested: original_request, codec }),
{
}

/// VideoToolbox is used exactly where FFmpeg reported no error and handed out a
/// device. Otherwise FFmpeg's status is what the caller gets: as the reason to
/// decode in software where the choice was left open, as an error where not.
pub proof fn law_device_is_used_or_explained(original_request: HwAccel, status: i32, present: bool)
    ensures
        device_ok(status, present) <==> (!(status < 0) && present),
        after_device(original_request, status, present) matches Ok(negotiated) ==> {
            &&& negotiated.active == ActiveHwAccel::VideoToolbox <==> (status >= 0 && present)
            &&& negotiated.active == ActiveHwAccel::Software ==> original_request == HwAccel::Auto
            &&& negotiated.fallback == (if status >= 0 && present {
                None
            } else {
                Some(FallbackReason::DeviceInit(status))
            })
        },
        after_device(original_request, status, present) is Err <==> ((status < 0 || !present)
            && original_request != HwAccel::Auto),
        after_device(original_request, status, present) matches Err(err) ==> err
            == DecoderError::HwDeviceInit(status),
{
}

/// VideoToolbox is chosen exactly where it is on offer, in whatever place, and
/// nothing else ever is.
pub proof fn law_videotoolbox_is_chosen_where_offered(offered: Seq<PixelFormat>)
    ensures
        chosen_format(offered) is Some <==> (exists|i: int|
            0 <= i < offered.len() && #[trigger] offered[i] is VideoToolbox),
        chosen_format(offered) matches Some(format) ==> format is VideoToolbox,
{
    if offered.contains(PixelFormat::VideoToolbox) {
        let i = choose|i: int|
            0 <= i < offered.len() && offered[i] == PixelFormat::VideoToolbox;
        assert(offered[i] is VideoToolbox);
    }
    if exists|i: int| 0 <= i < offered.len() && #[trigger] offered[i] is VideoToolbox {
        let i = choose|i: int| 0 <= i < offered.len() && #[trigger] offered[i] is VideoToolbox;
        assert(offered[i] == PixelFormat::VideoToolbox);
        assert(offered.contains(PixelFormat::VideoToolbox));
    }
}

/// A reason is told in words of its own, and one of FFmpeg's with the status
/// that FFmpeg returned.
pub proof fn law_fallback_texts(status: i32)
    ensures
        FallbackReason::NoDecoder.spec_message() == "no decoder found for stream"@,
        FallbackReason::NotAdvertised.spec_message()
            == "codec does not advertise the requested hwaccel device"@,
        FallbackReason::DeviceInit(status).spec_message()
            == "av_hwdevice_ctx_create failed: "@ + (
        "hwaccel device init failed (averror "@ + crate::text::signed_decimal(status as int)
            + ")"@),
{
}

/// All configurations of a decoder are looked at, in order.
pub proof fn law_no_configuration_is_left_out(configs: &[HwConfig])
    ensures
        configs_view(Some(configs)) == Some(configs@),
        configs_view(None) is None,
{
}

} // verus!
