use tenebra::input::InputCommand;
use tenebra::keys::Permissions;
use tenebra::session::{
    ends_session, ClientCommand, DatachannelMessageKind, MediaCodec, CommandOutcome, IceState, MediaKind, Session, CHANNEL_HIGH_WATER,
};
use tenebra::table::{FileTransfers, TransferTable};

fn command(kind: &str, id: Option<i32>, size: Option<u64>) -> ClientCommand {
    ClientCommand {
        command: InputCommand { kind: kind.to_string(), id, ..Default::default() },
        size,
    }
}

#[test]
fn ice_disconnect_or_failure_ends_the_session() {
    assert!(ends_session(IceState::Disconnected));
    assert!(ends_session(IceState::Failed));
    assert!(!ends_session(IceState::Connected));
    assert!(!ends_session(IceState::Checking));
    assert!(!ends_session(IceState::New));
}

#[test]
fn media_added_starts_pipelines() {
    let mut s = Session::new(Permissions::FullControl, 6000, false);
    assert_eq!(s.on_media_added(MediaKind::Audio, "1".to_string()), None);
    assert_eq!(s.audio_mid(), None);
    assert_eq!(s.on_media_added(MediaKind::Video, "0".to_string()), Some(6000));
    assert_eq!(s.video_mid(), Some("0".to_string()));
    assert_eq!(s.on_bitrate_estimate(50_000_000), 9000);

    let mut s = Session::new(Permissions::FullControl, 6000, true);
    assert_eq!(s.on_media_added(MediaKind::Audio, "1".to_string()), Some(6000));
    assert_eq!(s.audio_mid(), Some("1".to_string()));
    assert_eq!(s.on_bitrate_estimate(50_000_000), 8936);
    assert_eq!(s.on_bitrate_estimate(100_000), 436);
}

#[test]
fn bitrate_clamp_through_session() {
    let s = Session::new(Permissions::FullControl, 6000, false);
    let applied: Vec<u64> =
        [100_000u64, 3_500_000, 50_000_000].iter().map(|&b| s.on_bitrate_estimate(b)).collect();
    assert_eq!(applied, vec![500, 3500, 9000]);
}

#[test]
fn backpressure_stops_and_resumes_writes() {
    let mut s = Session::new(Permissions::FullControl, 6000, false);
    assert!(s.can_write_channel());
    s.after_channel_write(CHANNEL_HIGH_WATER);
    assert!(s.can_write_channel());
    s.after_channel_write(CHANNEL_HIGH_WATER + 1);
    assert!(!s.can_write_channel());
    s.after_channel_write(0);
    assert!(!s.can_write_channel());
    s.on_buffered_amount_low();
    assert!(s.can_write_channel());
    s.after_channel_write(10);
    assert!(s.can_write_channel());
}

#[test]
fn transfer_commands() {
    let s = Session::new(Permissions::FullControl, 6000, false);
    let transfers: FileTransfers<(), ()> = FileTransfers::new();
    assert!(matches!(
        s.on_text_command(command("requesttransfer", Some(7), Some(2048)), &transfers),
        CommandOutcome::BeginInbound { id: 7, size: 2048 }
    ));
    assert!(matches!(
        s.on_text_command(command("requesttransfer", Some(8), None), &transfers),
        CommandOutcome::BeginOutbound { id: 8 }
    ));
    assert!(matches!(
        s.on_text_command(command("requesttransfer", None, Some(1)), &transfers),
        CommandOutcome::Malformed
    ));
    assert!(matches!(
        s.on_text_command(command("canceltransfer", Some(7), None), &transfers),
        CommandOutcome::Cancel { id: 7 }
    ));
    assert!(matches!(
        s.on_text_command(command("canceltransfer", None, None), &transfers),
        CommandOutcome::Malformed
    ));
    assert!(matches!(
        s.on_text_command(command("transferready", Some(7), None), &transfers),
        CommandOutcome::Unexpected
    ));
    match s.on_text_command(command("mousemove", None, None), &transfers) {
        CommandOutcome::Forward(c) => assert_eq!(c.kind, "mousemove"),
        _ => panic!("input command not forwarded"),
    }
}

#[test]
fn live_transfer_id_is_refused() {
    let s = Session::new(Permissions::FullControl, 6000, false);
    let mut transfers: FileTransfers<&str, u8> = FileTransfers::new();
    transfers.inbound.insert(7, "inbound");
    transfers.outbound.insert(9, 1);
    assert!(matches!(
        s.on_text_command(command("requesttransfer", Some(7), Some(10)), &transfers),
        CommandOutcome::Refused { id: 7 }
    ));
    assert!(matches!(
        s.on_text_command(command("requesttransfer", Some(9), None), &transfers),
        CommandOutcome::Refused { id: 9 }
    ));
}

#[test]
fn view_only_peer_is_rejected() {
    let s = Session::new(Permissions::ViewOnly, 6000, false);
    let t: FileTransfers<(), ()> = FileTransfers::new();
    assert!(matches!(
        s.on_text_command(command("mousemove", None, None), &t),
        CommandOutcome::Rejected
    ));
    assert!(matches!(
        s.on_text_command(command("requesttransfer", Some(1), Some(1)), &t),
        CommandOutcome::Rejected
    ));
}

#[test]
fn transfer_table_holds_one_handle_per_id() {
    let mut t: TransferTable<String> = TransferTable::new();
    assert_eq!(t.insert(1, "a".to_string()), None);
    assert_eq!(t.insert(2, "b".to_string()), None);
    assert_eq!(t.insert(1, "c".to_string()), Some("a".to_string()));
    assert_eq!(t.get(1), Some(&"c".to_string()));
    assert!(t.contains(2));
    assert_eq!(t.remove(2), Some("b".to_string()));
    assert!(!t.contains(2));
    assert_eq!(t.remove(2), None);
    assert_eq!(t.get(3), None);
}

#[test]
fn cancelling_ends_both_directions() {
    let mut t: FileTransfers<&str, &str> = FileTransfers::new();
    t.inbound.insert(3, "in");
    t.outbound.insert(4, "out");
    assert!(t.is_live(3) && t.is_live(4));
    assert_eq!(t.handle_inbound_file_chunk(3), Some(&"in"));
    assert_eq!(t.handle_inbound_file_chunk(4), None);
    assert_eq!(t.cancel_transfer(3), (Some("in"), None));
    assert_eq!(t.cancel_transfer(4), (None, Some("out")));
    assert!(!t.is_live(3) && !t.is_live(4));
    assert_eq!(t.cancel_transfer(5), (None, None));
}

#[test]
fn message_kind() {
    assert!(DatachannelMessageKind::Binary.is_binary());
    assert!(!DatachannelMessageKind::Text.is_binary());
}

#[test]
fn frames_are_written_at_their_presentation_time() {
    let mut s = Session::new(Permissions::FullControl, 6000, true);
    assert_eq!(s.media_write(MediaKind::Video, 10), None);
    s.on_media_added(MediaKind::Video, "0".to_string());
    s.on_media_added(MediaKind::Audio, "1".to_string());
    let times: Vec<u64> = [0u64, 16_666, 33_333, 50_000]
        .iter()
        .map(|&pts| s.media_write(MediaKind::Video, pts).unwrap().media_time_micros)
        .collect();
    assert_eq!(times, vec![0, 16_666, 33_333, 50_000]);
    let w = s.media_write(MediaKind::Video, 7).unwrap();
    assert_eq!(w.mid, "0");
    assert_eq!(w.codec, MediaCodec::H264);
    assert_eq!((w.playout_delay_min_micros, w.playout_delay_max_micros), (0, 0));
    let a = s.media_write(MediaKind::Audio, 20_000).unwrap();
    assert_eq!(a.mid, "1");
    assert_eq!(a.codec, MediaCodec::Opus);
    assert_eq!(a.media_time_micros, 20_000);
}
