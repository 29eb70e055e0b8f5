//! Encoder settings: what the capture pipeline is built with, and how its
//! bitrate follows the peer's bandwidth estimates.
use vstd::prelude::*;

verus! {

/// Lowest video bitrate ever applied, in kbit/s.
pub const MIN_BITRATE_KBPS: u64 = 500;

/// How far above the configured target an estimate may raise the bitrate.
pub const BITRATE_HEADROOM_KBPS: u64 = 3000;

/// Bitrate left to the audio track when it is active, in kbit/s.
pub const AUDIO_RESERVE_KBPS: u64 = 64;

/// Encoder buffer window when the configuration names none, in ms.
pub const DEFAULT_VBV_BUF_CAPACITY_MS: u32 = 120;

/// Largest distance between keyframes for the software encoder; with it
/// keyframes come only on request.
pub const SOFTWARE_KEY_INT_MAX: u32 = 2560;

/// Largest distance between keyframes for the hardware encoder.
pub const HARDWARE_KEY_INT_MAX: u32 = 1024;

pub open spec fn clamp(v: int, lo: int, hi: int) -> int {
    if v < lo {
        lo
    } else if v > hi {
        hi
    } else {
        v
    }
}

/// The video bitrate, in kbit/s, applied for a bandwidth estimate of `bps`
/// bit/s under a target of `target_kbps`.
pub open spec fn adapted_kbps(bps: u64, target_kbps: u32, audio_active: bool) -> int {
    clamp(
        bps as int / 1000,
        MIN_BITRATE_KBPS as int,
        target_kbps as int + BITRATE_HEADROOM_KBPS,
    ) - if audio_active {
        AUDIO_RESERVE_KBPS as int
    } else {
        0
    }
}

/// Maps a bandwidth estimate (bit/s) to the encoder bitrate (kbit/s): the
/// estimate in kbit/s held within [500, target + 3000], less 64 when an
/// audio track is being sent.
pub fn video_bitrate_kbps(estimate_bps: u64, target_kbps: u32, audio_active: bool) -> (r: u64)
    ensures
        r == adapted_kbps(estimate_bps, target_kbps, audio_active),
        MIN_BITRATE_KBPS - AUDIO_RESERVE_KBPS <= r <= target_kbps as u64 + BITRATE_HEADROOM_KBPS,
{
    let hi = target_kbps as u64 + BITRATE_HEADROOM_KBPS;
    let kbps = estimate_bps / 1000;
    let clamped = if kbps < MIN_BITRATE_KBPS {
        MIN_BITRATE_KBPS
    } else if kbps > hi {
        hi
    } else {
        kbps
    };
    if audio_active {
        clamped - AUDIO_RESERVE_KBPS
    } else {
        clamped
    }
}

/// The coded-picture-buffer size that matches `kbps` over a window of
/// `window_ms` milliseconds.
pub fn cpb_size(kbps: u64, window_ms: u32) -> (r: u64)
    requires
        kbps <= u32::MAX,
    ensures
        r == kbps * window_ms / 1000,
{
    assert(kbps * window_ms <= u32::MAX as int * u32::MAX as int) by (nonlinear_arith)
        requires
            kbps <= u32::MAX,
            window_ms <= u32::MAX,
    ;
    kbps * window_ms as u64 / 1000
}

/// H.264 profile of the encoded stream.
#[derive(Debug, Clone, Copy, PartialEq, Eq, Structural)]
pub enum H264Profile {
    Baseline,
    High,
    High444,
}

/// Raw picture format handed to the encoder.
#[derive(Debug, Clone, Copy, PartialEq, Eq, Structural)]
pub enum RawFormat {
    Nv12,
    Y444,
    /// Frames stay in video-acceleration memory, converted there.
    AccelMemory,
}

/// What the encoder is built with.
#[derive(Debug, Clone, Copy, PartialEq, Eq, Structural)]
pub struct EncoderConfig {
    pub target_bitrate_kbps: u32,
    pub vbv_buf_capacity_ms: u32,
    pub full_chroma: bool,
    pub hardware: bool,
    pub hardware_convert: bool,
}

/// The properties that follow from an `EncoderConfig`.
#[derive(Debug, Clone, Copy, PartialEq, Eq, Structural)]
pub struct EncoderPlan {
    pub profile: H264Profile,
    pub format: RawFormat,
    pub initial_bitrate_kbps: u64,
    /// Coded-picture-buffer size, set on the hardware encoder only.
    pub cpb_size: Option<u64>,
    pub key_int_max: u32,
}

/// The bitrate the encoder starts at: the target less the audio reserve,
/// or nothing when the target is below it.
pub open spec fn initial_kbps(target_kbps: u32) -> u64 {
    if target_kbps >= AUDIO_RESERVE_KBPS {
        (target_kbps - AUDIO_RESERVE_KBPS) as u64
    } else {
        0
    }
}

/// Hardware encoding gives High; otherwise full chroma gives High 4:4:4;
/// otherwise Baseline.
pub open spec fn spec_profile(hardware: bool, full_chroma: bool) -> H264Profile {
    if hardware {
        H264Profile::High
    } else if full_chroma {
        H264Profile::High444
    } else {
        H264Profile::Baseline
    }
}

/// Converting in acceleration memory keeps frames there (and full chroma
/// is then ignored); otherwise full chroma gives Y444, else NV12.
pub open spec fn spec_format(full_chroma: bool, hardware_convert: bool) -> RawFormat {
    if hardware_convert {
        RawFormat::AccelMemory
    } else if full_chroma {
        RawFormat::Y444
    } else {
        RawFormat::Nv12
    }
}

impl EncoderConfig {
    /// The encoder's starting properties: the target less the audio
    /// reserve (none below zero), with a buffer sized for it when encoding
    /// in hardware.
    pub fn plan(&self) -> (r: EncoderPlan)
        ensures
            r.profile == spec_profile(self.hardware, self.full_chroma),
            r.format == spec_format(self.full_chroma, self.hardware_convert),
            r.initial_bitrate_kbps == initial_kbps(self.target_bitrate_kbps),
            self.hardware ==> r.cpb_size == Some(
                (initial_kbps(self.target_bitrate_kbps) * self.vbv_buf_capacity_ms / 1000) as u64,
            ),
            !self.hardware ==> r.cpb_size is None,
            r.key_int_max == (if self.hardware {
                HARDWARE_KEY_INT_MAX
            } else {
                SOFTWARE_KEY_INT_MAX
            }),
    {
        let profile = if self.hardware {
            H264Profile::High
        } else if self.full_chroma {
            H264Profile::High444
        } else {
            H264Profile::Baseline
        };
        let format = if self.hardware_convert {
            RawFormat::AccelMemory
        } else if self.full_chroma {
            RawFormat::Y444
        } else {
            RawFormat::Nv12
        };
        let initial = (self.target_bitrate_kbps as u64).saturating_sub(AUDIO_RESERVE_KBPS);
        let cpb = if self.hardware {
            Some(cpb_size(initial, self.vbv_buf_capacity_ms))
        } else {
            None
        };
        EncoderPlan {
            profile,
            format,
            initial_bitrate_kbps: initial,
            cpb_size: cpb,
            key_int_max: if self.hardware {
                HARDWARE_KEY_INT_MAX
            } else {
                SOFTWARE_KEY_INT_MAX
            },
        }
    }

    /// The buffer size to set beside a new bitrate: on the hardware encoder
    /// it follows the bitrate, the software one keeps its own.
    pub fn cpb_for_bitrate(&self, kbps: u64) -> (r: Option<u64>)
        requires
            kbps <= u32::MAX,
        ensures
            self.hardware ==> r == Some((kbps * self.vbv_buf_capacity_ms / 1000) as u64),
            !self.hardware ==> r is None,
    {
        if self.hardware {
            Some(cpb_size(kbps, self.vbv_buf_capacity_ms))
        } else {
            None
        }
    }
}

} // verus!
