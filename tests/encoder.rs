use tenebra::encoder::{
    cpb_size, video_bitrate_kbps, EncoderConfig, H264Profile, RawFormat, HARDWARE_KEY_INT_MAX,
    SOFTWARE_KEY_INT_MAX,
};

#[test]
fn bitrate_clamp_sequence() {
    let applied: Vec<u64> = [100_000u64, 3_500_000, 50_000_000]
        .iter()
        .map(|&bps| video_bitrate_kbps(bps, 6000, false))
        .collect();
    assert_eq!(applied, vec![500, 3500, 9000]);
}

#[test]
fn bitrate_leaves_room_for_audio() {
    assert_eq!(video_bitrate_kbps(100_000, 6000, true), 436);
    assert_eq!(video_bitrate_kbps(3_500_000, 6000, true), 3436);
    assert_eq!(video_bitrate_kbps(50_000_000, 6000, true), 8936);
}

#[test]
fn bitrate_bounds_are_inclusive() {
    assert_eq!(video_bitrate_kbps(500_999, 1000, false), 500);
    assert_eq!(video_bitrate_kbps(4_000_999, 1000, false), 4000);
    assert_eq!(video_bitrate_kbps(0, 0, false), 500);
    assert_eq!(video_bitrate_kbps(u64::MAX, u32::MAX, false), u32::MAX as u64 + 3000);
}

#[test]
fn cpb_follows_bitrate() {
    assert_eq!(cpb_size(6000, 120), 720);
    assert_eq!(cpb_size(999, 1), 0);
}

fn config(full_chroma: bool, hardware: bool, hardware_convert: bool) -> EncoderConfig {
    EncoderConfig {
        target_bitrate_kbps: 6000,
        vbv_buf_capacity_ms: 120,
        full_chroma,
        hardware,
        hardware_convert,
    }
}

#[test]
fn software_plan() {
    let p = config(false, false, false).plan();
    assert_eq!(p.profile, H264Profile::Baseline);
    assert_eq!(p.format, RawFormat::Nv12);
    assert_eq!(p.initial_bitrate_kbps, 5936);
    assert_eq!(p.cpb_size, None);
    assert_eq!(p.key_int_max, SOFTWARE_KEY_INT_MAX);
    let p = config(true, false, false).plan();
    assert_eq!(p.profile, H264Profile::High444);
    assert_eq!(p.format, RawFormat::Y444);
}

#[test]
fn hardware_plan() {
    let p = config(true, true, true).plan();
    assert_eq!(p.profile, H264Profile::High);
    assert_eq!(p.format, RawFormat::AccelMemory);
    assert_eq!(p.cpb_size, Some(5936 * 120 / 1000));
    assert_eq!(p.key_int_max, HARDWARE_KEY_INT_MAX);
    assert_eq!(config(false, true, false).cpb_for_bitrate(9000), Some(1080));
    assert_eq!(config(false, false, false).cpb_for_bitrate(9000), None);
}

#[test]
fn plan_for_a_target_below_the_audio_reserve() {
    let mut c = config(false, true, false);
    c.target_bitrate_kbps = 50;
    let p = c.plan();
    assert_eq!(p.initial_bitrate_kbps, 0);
    assert_eq!(p.cpb_size, Some(0));
}
