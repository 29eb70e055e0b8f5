//! Decisions of one WebRTC session: what to do on each engine event, which
//! data-channel commands a peer may give, and when the data channel may be
//! written.
//!
//! The caller drives the engine and its sockets; it hands each event here
//! and performs what comes back.
use crate::encoder::{adapted_kbps, video_bitrate_kbps};
use crate::input::InputCommand;
use crate::keys::Permissions;
use crate::table::FileTransfers;
use crate::text::str_eq;
use vstd::prelude::*;

verus! {

/// Above this many buffered bytes the data channel is not written; the
/// engine reports when the buffer drains below it again.
pub const CHANNEL_HIGH_WATER: usize = 32768;

/// How an outbound data-channel message is sent.
#[derive(Debug, Clone, Copy, PartialEq, Eq, Structural)]
pub enum DatachannelMessageKind {
    Binary,
    Text,
}

impl DatachannelMessageKind {
    pub fn is_binary(&self) -> (r: bool)
        ensures
            r == (*self == DatachannelMessageKind::Binary),
    {
        match self {
            DatachannelMessageKind::Binary => true,
            DatachannelMessageKind::Text => false,
        }
    }
}

/// State of the ICE connection.
#[derive(Debug, Clone, Copy, PartialEq, Eq, Structural)]
pub enum IceState {
    New,
    Checking,
    Connected,
    Completed,
    Disconnected,
    Failed,
    Closed,
}

#[derive(Debug, Clone, Copy, PartialEq, Eq, Structural)]
pub enum MediaKind {
    Video,
    Audio,
}

/// Codec of a track's payload.
#[derive(Debug, Clone, Copy, PartialEq, Eq, Structural)]
pub enum MediaCodec {
    H264,
    Opus,
}

/// One encoded frame to write to the engine.
#[derive(Debug, Clone, PartialEq, Eq)]
pub struct MediaWrite {
    /// The track it goes to.
    pub mid: String,
    /// The codec whose payload type it is sent with.
    pub codec: MediaCodec,
    /// Its media time, in microseconds.
    pub media_time_micros: u64,
    /// Least and greatest playout delay asked of the receiver, in
    /// microseconds: none, so that it is shown at once.
    pub playout_delay_min_micros: u64,
    pub playout_delay_max_micros: u64,
}

/// The media time a frame is written at, from its presentation time.
pub open spec fn media_time(pts_micros: u64) -> u64 {
    pts_micros
}

/// The codec each kind of track is sent with.
pub open spec fn codec_of(kind: MediaKind) -> MediaCodec {
    match kind {
        MediaKind::Video => MediaCodec::H264,
        MediaKind::Audio => MediaCodec::Opus,
    }
}

/// A data-channel text command: the input command fields, plus the size
/// of a file offered by the peer.
#[derive(Debug, Clone, Default)]
pub struct ClientCommand {
    pub command: InputCommand,
    pub size: Option<u64>,
}

/// What to do with a data-channel text command.
#[derive(Debug, Clone)]
pub enum CommandOutcome {
    /// The session may only watch.
    Rejected,
    /// The peer offers a file of `size` bytes: ask where to save it.
    BeginInbound { id: u32, size: u64 },
    /// The peer asks for a file: ask which one to send.
    BeginOutbound { id: u32 },
    /// The id is already in use: cancel it back to the peer.
    Refused { id: u32 },
    /// End transfer `id`.
    Cancel { id: u32 },
    /// A transfer command without the fields it needs.
    Malformed,
    /// A message that only the host sends.
    Unexpected,
    /// An input command for the host.
    Forward(InputCommand),
}

/// Whether the ICE connection is lost for good.
pub open spec fn is_terminal(s: IceState) -> bool {
    s == IceState::Disconnected || s == IceState::Failed
}

/// The session ends when ICE disconnects or fails.
pub fn ends_session(s: IceState) -> (r: bool)
    ensures
        r == is_terminal(s),
{
    match s {
        IceState::Disconnected | IceState::Failed => true,
        _ => false,
    }
}

/// The outcome of a text command from a peer with `permissions`, given
/// whether the transfer id it names is already live.
pub open spec fn command_outcome_spec(
    permissions: Permissions,
    c: ClientCommand,
    id_live: bool,
) -> CommandOutcome {
    let kind = c.command.kind@;
    let id = c.command.id;
    if permissions != Permissions::FullControl {
        CommandOutcome::Rejected
    } else if kind == "requesttransfer"@ {
        if id is None {
            CommandOutcome::Malformed
        } else if id_live {
            CommandOutcome::Refused { id: id.unwrap() as u32 }
        } else if c.size is Some {
            CommandOutcome::BeginInbound { id: id.unwrap() as u32, size: c.size.unwrap() }
        } else {
            CommandOutcome::BeginOutbound { id: id.unwrap() as u32 }
        }
    } else if kind == "transferready"@ {
        CommandOutcome::Unexpected
    } else if kind == "canceltransfer"@ {
        if id is None {
            CommandOutcome::Malformed
        } else {
            CommandOutcome::Cancel { id: id.unwrap() as u32 }
        }
    } else {
        CommandOutcome::Forward(c.command)
    }
}

/// The transfer id a command names.
pub open spec fn transfer_id(c: ClientCommand) -> u32 {
    c.command.id.unwrap() as u32
}

/// One peer session: who it is, what it sends, and whether the data
/// channel may be written.
pub struct Session {
    permissions: Permissions,
    target_kbps: u32,
    audio_capture: bool,
    video_mid: Option<String>,
    audio_mid: Option<String>,
    can_write_channel: bool,
}

impl Session {
    pub closed spec fn permissions(&self) -> Permissions {
        self.permissions
    }

    pub closed spec fn target_kbps(&self) -> u32 {
        self.target_kbps
    }

    /// Whether audio may be sent: the host can capture it and forwarding
    /// is on.
    pub closed spec fn audio_capture(&self) -> bool {
        self.audio_capture
    }

    pub closed spec fn video_track(&self) -> Option<Seq<char>> {
        match self.video_mid {
            Some(m) => Some(m@),
            None => None,
        }
    }

    pub closed spec fn audio_track(&self) -> Option<Seq<char>> {
        match self.audio_mid {
            Some(m) => Some(m@),
            None => None,
        }
    }

    pub closed spec fn write_allowed(&self) -> bool {
        self.can_write_channel
    }

    /// A session for a peer with `permissions`, encoding at `target_kbps`;
    /// no track yet, and the data channel writable.
    pub fn new(permissions: Permissions, target_kbps: u32, audio_capture: bool) -> (r: Self)
        ensures
            r.permissions() == permissions,
            r.target_kbps() == target_kbps,
            r.audio_capture() == audio_capture,
            r.video_track() is None,
            r.audio_track() is None,
            r.write_allowed(),
    {
        Session {
            permissions,
            target_kbps,
            audio_capture,
            video_mid: None,
            audio_mid: None,
            can_write_channel: true,
        }
    }

    /// A track was negotiated. Returns the desired bitrate to set when its
    /// pipeline is to start, and records its mid; an audio track is ignored
    /// unless audio can be sent.
    pub fn on_media_added(&mut self, kind: MediaKind, mid: String) -> (r: Option<u64>)
        ensures
            final(self).permissions() == old(self).permissions(),
            final(self).target_kbps() == old(self).target_kbps(),
            final(self).audio_capture() == old(self).audio_capture(),
            final(self).write_allowed() == old(self).write_allowed(),
            kind == MediaKind::Audio && !old(self).audio_capture() ==> r is None
                && final(self).video_track() == old(self).video_track()
                && final(self).audio_track() == old(self).audio_track(),
            kind == MediaKind::Audio && old(self).audio_capture() ==> r == Some(
                old(self).target_kbps() as u64,
            ) && final(self).audio_track() == Some(mid@) && final(self).video_track() == old(
                self,
            ).video_track(),
            kind == MediaKind::Video ==> r == Some(old(self).target_kbps() as u64)
                && final(self).video_track() == Some(mid@) && final(self).audio_track() == old(
                self,
            ).audio_track(),
    {
        match kind {
            MediaKind::Video => {
                self.video_mid = Some(mid);
                Some(self.target_kbps as u64)
            },
            MediaKind::Audio => {
                if self.audio_capture {
                    self.audio_mid = Some(mid);
                    Some(self.target_kbps as u64)
                } else {
                    None
                }
            },
        }
    }

    /// The mid of the video track, once negotiated.
    pub fn video_mid(&self) -> (r: Option<String>)
        ensures
            r matches Some(m) ==> self.video_track() == Some(m@),
            r is None <==> self.video_track() is None,
    {
        match &self.video_mid {
            Some(m) => Some(m.clone()),
            None => None,
        }
    }

    /// The mid of the audio track, once negotiated.
    pub fn audio_mid(&self) -> (r: Option<String>)
        ensures
            r matches Some(m) ==> self.audio_track() == Some(m@),
            r is None <==> self.audio_track() is None,
    {
        match &self.audio_mid {
            Some(m) => Some(m.clone()),
            None => None,
        }
    }

    /// The encoder bitrate (kbit/s) for a bandwidth estimate of
    /// `estimate_bps` bit/s, leaving room for audio when it is sent.
    pub fn on_bitrate_estimate(&self, estimate_bps: u64) -> (r: u64)
        ensures
            r == adapted_kbps(estimate_bps, self.target_kbps(), self.audio_track() is Some),
    {
        video_bitrate_kbps(estimate_bps, self.target_kbps, self.audio_mid.is_some())
    }

    /// How a frame of `kind` with presentation time `pts_micros` from its
    /// pipeline is written: to that track, with its codec, at that time, with
    /// no playout delay. `None` while the track is not negotiated.
    pub fn media_write(&self, kind: MediaKind, pts_micros: u64) -> (r: Option<MediaWrite>)
        ensures
            r is None <==> (match kind {
                MediaKind::Video => self.video_track() is None,
                MediaKind::Audio => self.audio_track() is None,
            }),
            r matches Some(w) ==> {
                &&& Some(w.mid@) == (match kind {
                    MediaKind::Video => self.video_track(),
                    MediaKind::Audio => self.audio_track(),
                })
                &&& w.codec == codec_of(kind)
                &&& w.media_time_micros == media_time(pts_micros)
                &&& w.playout_delay_min_micros == 0
                &&& w.playout_delay_max_micros == 0
            },
    {
        let (mid, codec) = match kind {
            MediaKind::Video => (&self.video_mid, MediaCodec::H264),
            MediaKind::Audio => (&self.audio_mid, MediaCodec::Opus),
        };
        match mid {
            Some(m) => Some(
                MediaWrite {
                    mid: m.clone(),
                    codec,
                    media_time_micros: pts_micros,
                    playout_delay_min_micros: 0,
                    playout_delay_max_micros: 0,
                },
            ),
            None => None,
        }
    }

    /// Whether the next outbound data-channel message may be taken.
    pub fn can_write_channel(&self) -> (r: bool)
        ensures
            r == self.write_allowed(),
    {
        self.can_write_channel
    }

    /// A message was written and the channel now buffers `buffered` bytes:
    /// writing stops while that is above the high-water mark.
    pub fn after_channel_write(&mut self, buffered: usize)
        ensures
            final(self).write_allowed() == gate_step(
                old(self).write_allowed(),
                ChannelSignal::Written(buffered),
            ),
            final(self).permissions() == old(self).permissions(),
            final(self).target_kbps() == old(self).target_kbps(),
            final(self).audio_capture() == old(self).audio_capture(),
            final(self).video_track() == old(self).video_track(),
            final(self).audio_track() == old(self).audio_track(),
    {
        if buffered > CHANNEL_HIGH_WATER {
            self.can_write_channel = false;
        }
    }

    /// The channel's buffer drained below the mark: writing resumes.
    pub fn on_buffered_amount_low(&mut self)
        ensures
            final(self).write_allowed() == gate_step(
                old(self).write_allowed(),
                ChannelSignal::BufferedLow,
            ),
            final(self).permissions() == old(self).permissions(),
            final(self).target_kbps() == old(self).target_kbps(),
            final(self).audio_capture() == old(self).audio_capture(),
            final(self).video_track() == old(self).video_track(),
            final(self).audio_track() == old(self).audio_track(),
    {
        self.can_write_channel = true;
    }

    /// What a text command from the peer asks for. Only a peer with full
    /// control may give one; a transfer may not reuse a live id.
    pub fn on_text_command<I, O>(
        &self,
        c: ClientCommand,
        transfers: &FileTransfers<I, O>,
    ) -> (r: CommandOutcome)
        ensures
            r == command_outcome_spec(
                self.permissions(),
                c,
                c.command.id is Some && (transfers.inbound@.contains_key(transfer_id(c))
                    || transfers.outbound@.contains_key(transfer_id(c))),
            ),
    {
        if self.permissions != Permissions::FullControl {
            return CommandOutcome::Rejected;
        }
        let kind = c.command.kind.as_str();
        if str_eq(kind, "requesttransfer") {
            match c.command.id {
                None => CommandOutcome::Malformed,
                Some(raw) => {
                    let id = raw as u32;
                    if transfers.is_live(id) {
                        CommandOutcome::Refused { id }
                    } else {
                        match c.size {
                            Some(size) => CommandOutcome::BeginInbound { id, size },
                            None => CommandOutcome::BeginOutbound { id },
                        }
                    }
                },
            }
        } else if str_eq(kind, "transferready") {
            CommandOutcome::Unexpected
        } else if str_eq(kind, "canceltransfer") {
            match c.command.id {
                None => CommandOutcome::Malformed,
                Some(raw) => CommandOutcome::Cancel { id: raw as u32 },
            }
        } else {
            CommandOutcome::Forward(c.command)
        }
    }
}

pub open spec fn is_monotone(s: Seq<u64>) -> bool {
    forall|i: int, j: int| 0 <= i <= j < s.len() ==> s[i] <= s[j]
}

/// Each frame is written at the presentation time its pipeline gave it,
/// so a track whose pipeline gives monotone times is written with monotone
/// media times.
pub proof fn lemma_media_time_order(pts: Seq<u64>)
    ensures
        forall|i: int| 0 <= i < pts.len() ==> #[trigger] media_time(pts[i]) == pts[i],
        is_monotone(pts) ==> is_monotone(pts.map_values(|p: u64| media_time(p))),
{
}

/// What the data channel's writer is told, in order.
#[derive(Debug, Clone, Copy, PartialEq, Eq, Structural)]
pub enum ChannelSignal {
    /// A message was written; this many bytes are now buffered.
    Written(usize),
    /// The buffer drained below the mark.
    BufferedLow,
}

/// Whether writing is allowed after one signal, given whether it was
/// before: `Session::after_channel_write` and
/// `Session::on_buffered_amount_low` each take one such step.
pub open spec fn gate_step(allowed: bool, sig: ChannelSignal) -> bool {
    match sig {
        ChannelSignal::Written(b) => allowed && b <= CHANNEL_HIGH_WATER,
        ChannelSignal::BufferedLow => true,
    }
}

/// Whether writing is allowed after the signals `sigs`, from `allowed`.
pub open spec fn write_gate(allowed: bool, sigs: Seq<ChannelSignal>) -> bool
    decreases sigs.len(),
{
    if sigs.len() == 0 {
        allowed
    } else {
        gate_step(write_gate(allowed, sigs.drop_last()), sigs.last())
    }
}

/// No write is taken while the channel buffers more than the high-water
/// mark: once a write leaves more than that buffered, a session stays
/// unwritable through any later writes until the buffer is reported low,
/// and then writing resumes.
pub proof fn lemma_backpressure(allowed: bool, sigs: Seq<ChannelSignal>, k: int)
    requires
        0 <= k < sigs.len(),
        sigs[k] matches ChannelSignal::Written(b) && b > CHANNEL_HIGH_WATER,
        forall|j: int| k < j < sigs.len() ==> sigs[j] != ChannelSignal::BufferedLow,
    ensures
        !write_gate(allowed, sigs),
        write_gate(allowed, sigs.push(ChannelSignal::BufferedLow)),
    decreases sigs.len(),
{
    assert(sigs.push(ChannelSignal::BufferedLow).drop_last() == sigs);
    if k < sigs.len() - 1 {
        lemma_backpressure(allowed, sigs.drop_last(), k);
    }
}

} // verus!
