//! File transfers over the data channel: binary chunks tagged with their
//! transfer id, the JSON control messages, and the progress of a transfer.
use crate::framing::append_bytes;
use vstd::prelude::*;

verus! {

/// Bytes of a file read for each outbound chunk.
pub const CHUNK_SIZE: usize = 1024;

/// The four big-endian bytes of `id`.
pub open spec fn be32(id: u32) -> Seq<u8> {
    seq![
        (id / 0x1000000) as u8,
        (id / 0x10000 % 256) as u8,
        (id / 0x100 % 256) as u8,
        (id % 256) as u8,
    ]
}

/// The value of four big-endian bytes.
pub open spec fn be32_value(b: Seq<u8>) -> u32 {
    (b[0] as int * 0x1000000 + b[1] as int * 0x10000 + b[2] as int * 0x100 + b[3] as int) as u32
}

/// A chunk as it goes on the data channel: its transfer id, then the bytes.
pub open spec fn chunk_frame(id: u32, chunk: Seq<u8>) -> Seq<u8> {
    be32(id) + chunk
}

/// Tags `chunk` with the id of its transfer.
pub fn frame_chunk(id: u32, chunk: &[u8]) -> (r: Vec<u8>)
    ensures
        r@ == chunk_frame(id, chunk@),
{
    let mut out: Vec<u8> = Vec::new();
    out.push((id / 0x1000000) as u8);
    out.push((id / 0x10000 % 256) as u8);
    out.push((id / 0x100 % 256) as u8);
    out.push((id % 256) as u8);
    append_bytes(&mut out, chunk);
    assert(out@ =~= chunk_frame(id, chunk@));
    out
}

/// Splits a binary message into its transfer id and chunk; `None` when it
/// is too short to hold an id.
pub fn split_chunk(data: &[u8]) -> (r: Option<(u32, Vec<u8>)>)
    ensures
        data@.len() < 4 ==> r is None,
        data@.len() >= 4 ==> (r matches Some((id, chunk)) && id == be32_value(data@) && chunk@
            == data@.subrange(4, data@.len() as int)),
{
    if data.len() < 4 {
        return None;
    }
    let id = (data[0] as u32) * 0x1000000 + (data[1] as u32) * 0x10000 + (data[2] as u32) * 0x100
        + data[3] as u32;
    let mut chunk: Vec<u8> = Vec::new();
    append_bytes(&mut chunk, &data[4..data.len()]);
    Some((id, chunk))
}

/// Splitting a framed chunk gives back its id and bytes.
pub proof fn lemma_chunk_round_trip(id: u32, chunk: Seq<u8>)
    ensures
        be32_value(chunk_frame(id, chunk)) == id,
        chunk_frame(id, chunk).subrange(4, chunk_frame(id, chunk).len() as int) == chunk,
        chunk_frame(id, chunk).len() >= 4,
{
    let b = chunk_frame(id, chunk);
    assert(b[0] == (id / 0x1000000) as u8 && b[1] == (id / 0x10000 % 256) as u8 && b[2] == (id
        / 0x100 % 256) as u8 && b[3] == (id % 256) as u8);
    assert(be32_value(b) == id) by (nonlinear_arith)
        requires
            b[0] == (id / 0x1000000) as u8,
            b[1] == (id / 0x10000 % 256) as u8,
            b[2] == (id / 0x100 % 256) as u8,
            b[3] == (id % 256) as u8,
            be32_value(b) == (b[0] as int * 0x1000000 + b[1] as int * 0x10000 + b[2] as int
                * 0x100 + b[3] as int) as u32,
    ;
    assert(b.subrange(4, b.len() as int) =~= chunk);
}

/// The decimal digits of `n`, most significant first.
pub open spec fn decimal(n: nat) -> Seq<u8>
    decreases n,
{
    if n < 10 {
        seq![(n + 48) as u8]
    } else {
        decimal(n / 10) + seq![(n % 10 + 48) as u8]
    }
}

/// Appends the decimal digits of `n`.
pub fn push_decimal(out: &mut Vec<u8>, n: u64)
    ensures
        final(out)@ == old(out)@ + decimal(n as nat),
    decreases n,
{
    if n < 10 {
        out.push((n + 48) as u8);
        assert(final(out)@ =~= old(out)@ + decimal(n as nat)) by {
            assert(out@ =~= old(out)@ + seq![(n + 48) as u8]);
        }
    } else {
        push_decimal(out, n / 10);
        out.push((n % 10 + 48) as u8);
        assert(out@ =~= old(out)@ + decimal(n as nat));
    }
}

pub open spec fn ascii(s: Seq<char>) -> Seq<u8> {
    s.map_values(|c: char| c as u8)
}

/// Appends an ASCII literal.
pub fn push_ascii(out: &mut Vec<u8>, s: &str)
    requires
        s.is_ascii(),
    ensures
        final(out)@ == old(out)@ + ascii(s@),
{
    proof {
        vstd::string::is_ascii_spec_bytes(s);
    }
    let b = s.as_bytes();
    append_bytes(out, b);
    assert(b@ =~= ascii(s@));
}

/// The control message that says transfer `id` is ready, with the size of
/// the file when the host is the sender: `{"id":7,"type":"transferready"}`
/// or `{"id":7,"size":2048,"type":"transferready"}`.
pub open spec fn ready_message(id: u32, size: Option<u64>) -> Seq<u8> {
    ascii("{\"id\":"@) + decimal(id as nat) + match size {
        Some(s) => ascii(",\"size\":"@) + decimal(s as nat),
        None => Seq::empty(),
    } + ascii(",\"type\":\"transferready\"}"@)
}

/// The control message that cancels transfer `id`:
/// `{"id":7,"type":"canceltransfer"}`.
pub open spec fn cancel_message(id: u32) -> Seq<u8> {
    ascii("{\"id\":"@) + decimal(id as nat) + ascii(",\"type\":\"canceltransfer\"}"@)
}

pub fn transfer_ready_message(id: u32, size: Option<u64>) -> (r: Vec<u8>)
    ensures
        r@ == ready_message(id, size),
{
    let mut out: Vec<u8> = Vec::new();
    proof {
        reveal_strlit("{\"id\":");
        reveal_strlit(",\"size\":");
        reveal_strlit(",\"type\":\"transferready\"}");
    }
    push_ascii(&mut out, "{\"id\":");
    push_decimal(&mut out, id as u64);
    if let Some(s) = size {
        push_ascii(&mut out, ",\"size\":");
        push_decimal(&mut out, s);
    }
    push_ascii(&mut out, ",\"type\":\"transferready\"}");
    assert(out@ =~= ready_message(id, size));
    out
}

pub fn cancel_transfer_message(id: u32) -> (r: Vec<u8>)
    ensures
        r@ == cancel_message(id),
{
    let mut out: Vec<u8> = Vec::new();
    proof {
        reveal_strlit("{\"id\":");
        reveal_strlit(",\"type\":\"canceltransfer\"}");
    }
    push_ascii(&mut out, "{\"id\":");
    push_decimal(&mut out, id as u64);
    push_ascii(&mut out, ",\"type\":\"canceltransfer\"}");
    assert(out@ =~= cancel_message(id));
    out
}

/// How far an inbound transfer has come.
#[derive(Debug, Clone, Copy, PartialEq, Eq, Structural)]
pub struct InboundProgress {
    pub size: u64,
    pub received: u64,
}

impl InboundProgress {
    /// A transfer of `size` bytes with nothing received yet.
    pub fn new(size: u64) -> (r: Self)
        ensures
            r.size == size,
            r.received == 0,
    {
        InboundProgress { size, received: 0 }
    }

    /// Counts a chunk of `len` bytes written to the file; returns whether
    /// the declared size has now been reached.
    pub fn on_chunk(&mut self, len: usize) -> (done: bool)
        ensures
            final(self).size == old(self).size,
            final(self).received == if old(self).received + len > u64::MAX {
                u64::MAX as int
            } else {
                old(self).received + len
            },
            done == (old(self).received + len >= old(self).size),
    {
        self.received = self.received.saturating_add(len as u64);
        self.received >= self.size
    }
}

/// What an outbound transfer does after a read of its file.
#[derive(Debug, Clone, PartialEq, Eq)]
pub enum OutboundStep {
    /// Send this binary message and read on.
    Send(Vec<u8>),
    /// The whole file has been sent.
    Finished,
    /// Reading failed: the transfer is to be cancelled.
    Cancel,
}

/// The next step of outbound transfer `id` after a read of the file that
/// gave `read`: the bytes read, or `None` if reading failed. An empty read
/// is the end of the file.
pub fn outbound_step(id: u32, read: Option<&[u8]>) -> (r: OutboundStep)
    ensures
        read is None ==> r is Cancel,
        read matches Some(b) ==> (b@.len() == 0 ==> r is Finished),
        read matches Some(b) ==> (b@.len() > 0 ==> (r matches OutboundStep::Send(m) && m@
            == chunk_frame(id, b@))),
{
    match read {
        None => OutboundStep::Cancel,
        Some(b) => {
            if b.len() == 0 {
                OutboundStep::Finished
            } else {
                OutboundStep::Send(frame_chunk(id, b))
            }
        },
    }
}

/// Something for the user to see about a transfer.
#[derive(Debug, Clone, Copy, PartialEq, Eq, Structural)]
pub enum TransferNotice {
    CreateFailed,
    WriteFailed,
    OpenFailed,
    MetadataFailed,
    /// The transfer completed, `bytes` of a file of `size`.
    Finished { bytes: u64, size: u64 },
}

/// What a transfer task does next, in order.
#[derive(Debug, Clone, Copy, PartialEq, Eq, Structural)]
pub enum TransferAction {
    /// Enter the transfer in the session's table.
    Register,
    /// Take it out of the table.
    Unregister,
    /// Send the peer the ready message, with the file size if the host sends.
    SendReady { size: Option<u64> },
    /// Send the peer the cancel message.
    SendCancel,
    /// Show the user a dialog.
    Notify(TransferNotice),
}

/// Where an inbound transfer (peer to host) stands.
#[derive(Debug, Clone, Copy, PartialEq, Eq, Structural)]
pub enum InboundPhase {
    ChoosingPath,
    CreatingFile,
    Receiving(InboundProgress),
    Done,
}

#[derive(Debug, Clone, Copy, PartialEq, Eq, Structural)]
pub enum InboundEvent {
    PathChosen,
    DialogCancelled,
    FileCreated,
    CreateFailed,
    /// A chunk of this many bytes was written to the file.
    ChunkWritten(usize),
    WriteFailed,
}

/// An inbound transfer of `size` bytes: what each event leads to. The user
/// picks where to save; once the file exists the transfer is registered
/// and the peer told to start; it ends when the declared size is reached,
/// or on any failure, with the peer told to cancel.
pub open spec fn inbound_step(size: u64, phase: InboundPhase, ev: InboundEvent) -> (
    Seq<TransferAction>,
    InboundPhase,
) {
    match (phase, ev) {
        (InboundPhase::ChoosingPath, InboundEvent::PathChosen) => (
            Seq::empty(),
            InboundPhase::CreatingFile,
        ),
        (InboundPhase::ChoosingPath, InboundEvent::DialogCancelled) => (
            seq![TransferAction::SendCancel],
            InboundPhase::Done,
        ),
        (InboundPhase::CreatingFile, InboundEvent::FileCreated) => (
            seq![TransferAction::Register, TransferAction::SendReady { size: None }],
            InboundPhase::Receiving(InboundProgress { size, received: 0 }),
        ),
        (InboundPhase::CreatingFile, InboundEvent::CreateFailed) => (
            seq![
                TransferAction::Notify(TransferNotice::CreateFailed),
                TransferAction::SendCancel,
            ],
            InboundPhase::Done,
        ),
        (InboundPhase::Receiving(p), InboundEvent::ChunkWritten(len)) => {
            let total = if p.received + len > u64::MAX {
                u64::MAX
            } else {
                (p.received + len) as u64
            };
            if p.received + len >= p.size {
                (
                    seq![
                        TransferAction::Unregister,
                        TransferAction::Notify(TransferNotice::Finished { bytes: total, size: p.size }),
                    ],
                    InboundPhase::Done,
                )
            } else {
                (Seq::empty(), InboundPhase::Receiving(InboundProgress { size: p.size, received: total }))
            }
        },
        (InboundPhase::Receiving(_), InboundEvent::WriteFailed) => (
            seq![
                TransferAction::Unregister,
                TransferAction::SendCancel,
                TransferAction::Notify(TransferNotice::WriteFailed),
            ],
            InboundPhase::Done,
        ),
        _ => (Seq::empty(), phase),
    }
}

/// An inbound transfer: its id, declared size and phase.
pub struct InboundTransfer {
    pub id: u32,
    pub size: u64,
    pub phase: InboundPhase,
}

impl InboundTransfer {
    pub fn new(id: u32, size: u64) -> (r: Self)
        ensures
            r.id == id,
            r.size == size,
            r.phase == InboundPhase::ChoosingPath,
    {
        InboundTransfer { id, size, phase: InboundPhase::ChoosingPath }
    }

    /// Takes an event and returns what to do; events that do not apply in
    /// the current phase are ignored.
    pub fn on_event(&mut self, ev: InboundEvent) -> (r: Vec<TransferAction>)
        ensures
            final(self).id == old(self).id,
            final(self).size == old(self).size,
            (r@, final(self).phase) == inbound_step(old(self).size, old(self).phase, ev),
    {
        let mut out: Vec<TransferAction> = Vec::new();
        match (self.phase, ev) {
            (InboundPhase::ChoosingPath, InboundEvent::PathChosen) => {
                self.phase = InboundPhase::CreatingFile;
            },
            (InboundPhase::ChoosingPath, InboundEvent::DialogCancelled) => {
                out.push(TransferAction::SendCancel);
                self.phase = InboundPhase::Done;
            },
            (InboundPhase::CreatingFile, InboundEvent::FileCreated) => {
                out.push(TransferAction::Register);
                out.push(TransferAction::SendReady { size: None });
                self.phase = InboundPhase::Receiving(InboundProgress::new(self.size));
            },
            (InboundPhase::CreatingFile, InboundEvent::CreateFailed) => {
                out.push(TransferAction::Notify(TransferNotice::CreateFailed));
                out.push(TransferAction::SendCancel);
                self.phase = InboundPhase::Done;
            },
            (InboundPhase::Receiving(p), InboundEvent::ChunkWritten(len)) => {
                let mut q = p;
                if q.on_chunk(len) {
                    out.push(TransferAction::Unregister);
                    out.push(
                        TransferAction::Notify(TransferNotice::Finished { bytes: q.received, size: q.size }),
                    );
                    self.phase = InboundPhase::Done;
                } else {
                    self.phase = InboundPhase::Receiving(q);
                }
            },
            (InboundPhase::Receiving(_), InboundEvent::WriteFailed) => {
                out.push(TransferAction::Unregister);
                out.push(TransferAction::SendCancel);
                out.push(TransferAction::Notify(TransferNotice::WriteFailed));
                self.phase = InboundPhase::Done;
            },
            _ => {},
        }
        assert(out@ =~= inbound_step(old(self).size, old(self).phase, ev).0);
        out
    }
}

/// Where an outbound transfer (host to peer) stands.
#[derive(Debug, Clone, Copy, PartialEq, Eq, Structural)]
pub enum OutboundPhase {
    ChoosingPath,
    OpeningFile,
    /// Sending a file of `size` bytes.
    Sending { size: u64 },
    Done,
}

#[derive(Debug, Clone, Copy, PartialEq, Eq, Structural)]
pub enum OutboundEvent {
    PathChosen,
    DialogCancelled,
    /// The file is open and holds `size` bytes.
    Opened { size: u64 },
    OpenFailed,
    MetadataFailed,
    EndOfFile,
    ReadFailed,
    /// The session stopped taking messages.
    ChannelClosed,
}

/// An outbound transfer: the user picks a file; the peer is told its size
/// and it is sent; every ending takes the transfer out of the table, and a
/// failure tells the peer to cancel.
pub open spec fn outbound_transition(phase: OutboundPhase, ev: OutboundEvent) -> (
    Seq<TransferAction>,
    OutboundPhase,
) {
    match (phase, ev) {
        (OutboundPhase::ChoosingPath, OutboundEvent::PathChosen) => (
            Seq::empty(),
            OutboundPhase::OpeningFile,
        ),
        (OutboundPhase::ChoosingPath, OutboundEvent::DialogCancelled) => (
            seq![TransferAction::SendCancel, TransferAction::Unregister],
            OutboundPhase::Done,
        ),
        (OutboundPhase::OpeningFile, OutboundEvent::Opened { size }) => (
            seq![TransferAction::SendReady { size: Some(size) }],
            OutboundPhase::Sending { size },
        ),
        (OutboundPhase::OpeningFile, OutboundEvent::OpenFailed) => (
            seq![
                TransferAction::Notify(TransferNotice::OpenFailed),
                TransferAction::SendCancel,
                TransferAction::Unregister,
            ],
            OutboundPhase::Done,
        ),
        (OutboundPhase::OpeningFile, OutboundEvent::MetadataFailed) => (
            seq![
                TransferAction::Notify(TransferNotice::MetadataFailed),
                TransferAction::SendCancel,
                TransferAction::Unregister,
            ],
            OutboundPhase::Done,
        ),
        (OutboundPhase::Sending { size }, OutboundEvent::EndOfFile) => (
            seq![
                TransferAction::Notify(TransferNotice::Finished { bytes: size, size }),
                TransferAction::Unregister,
            ],
            OutboundPhase::Done,
        ),
        (OutboundPhase::Sending { .. }, OutboundEvent::ReadFailed) => (
            seq![TransferAction::SendCancel, TransferAction::Unregister],
            OutboundPhase::Done,
        ),
        (OutboundPhase::Sending { .. }, OutboundEvent::ChannelClosed) => (
            seq![TransferAction::Unregister],
            OutboundPhase::Done,
        ),
        _ => (Seq::empty(), phase),
    }
}

/// An outbound transfer: its id and phase.
pub struct OutboundTransfer {
    pub id: u32,
    pub phase: OutboundPhase,
}

impl OutboundTransfer {
    pub fn new(id: u32) -> (r: Self)
        ensures
            r.id == id,
            r.phase == OutboundPhase::ChoosingPath,
    {
        OutboundTransfer { id, phase: OutboundPhase::ChoosingPath }
    }

    /// Takes an event and returns what to do; events that do not apply in
    /// the current phase are ignored.
    pub fn on_event(&mut self, ev: OutboundEvent) -> (r: Vec<TransferAction>)
        ensures
            final(self).id == old(self).id,
            (r@, final(self).phase) == outbound_transition(old(self).phase, ev),
    {
        let mut out: Vec<TransferAction> = Vec::new();
        match (self.phase, ev) {
            (OutboundPhase::ChoosingPath, OutboundEvent::PathChosen) => {
                self.phase = OutboundPhase::OpeningFile;
            },
            (OutboundPhase::ChoosingPath, OutboundEvent::DialogCancelled) => {
                out.push(TransferAction::SendCancel);
                out.push(TransferAction::Unregister);
                self.phase = OutboundPhase::Done;
            },
            (OutboundPhase::OpeningFile, OutboundEvent::Opened { size }) => {
                out.push(TransferAction::SendReady { size: Some(size) });
                self.phase = OutboundPhase::Sending { size };
            },
            (OutboundPhase::OpeningFile, OutboundEvent::OpenFailed) => {
                out.push(TransferAction::Notify(TransferNotice::OpenFailed));
                out.push(TransferAction::SendCancel);
                out.push(TransferAction::Unregister);
                self.phase = OutboundPhase::Done;
            },
            (OutboundPhase::OpeningFile, OutboundEvent::MetadataFailed) => {
                out.push(TransferAction::Notify(TransferNotice::MetadataFailed));
                out.push(TransferAction::SendCancel);
                out.push(TransferAction::Unregister);
                self.phase = OutboundPhase::Done;
            },
            (OutboundPhase::Sending { size }, OutboundEvent::EndOfFile) => {
                out.push(TransferAction::Notify(TransferNotice::Finished { bytes: size, size }));
                out.push(TransferAction::Unregister);
                self.phase = OutboundPhase::Done;
            },
            (OutboundPhase::Sending { .. }, OutboundEvent::ReadFailed) => {
                out.push(TransferAction::SendCancel);
                out.push(TransferAction::Unregister);
                self.phase = OutboundPhase::Done;
            },
            (OutboundPhase::Sending { .. }, OutboundEvent::ChannelClosed) => {
                out.push(TransferAction::Unregister);
                self.phase = OutboundPhase::Done;
            },
            _ => {},
        }
        assert(out@ =~= outbound_transition(old(self).phase, ev).0);
        out
    }
}

} // verus!
