//! Datagrams over a byte stream: each one goes as a 16-bit big-endian
//! length followed by that many bytes.
use vstd::prelude::*;

verus! {

/// Longest payload a frame can carry.
pub const MAX_FRAME_PAYLOAD: usize = 65535;

/// The two big-endian bytes of a 16-bit length.
pub open spec fn be16(n: nat) -> Seq<u8> {
    seq![(n / 256) as u8, (n % 256) as u8]
}

/// One payload as it goes on the stream.
pub open spec fn framed(p: Seq<u8>) -> Seq<u8> {
    be16(p.len()) + p
}

/// Payloads sent in order, as they go on the stream.
pub open spec fn framed_all(ps: Seq<Seq<u8>>) -> Seq<u8>
    decreases ps.len(),
{
    if ps.len() == 0 {
        Seq::empty()
    } else {
        framed(ps[0]) + framed_all(ps.subrange(1, ps.len() as int))
    }
}

/// The length announced at the start of `b`.
pub open spec fn announced_len(b: Seq<u8>) -> int {
    b[0] as int * 256 + b[1] as int
}

/// Whether `b` starts with a whole frame.
pub open spec fn has_frame(b: Seq<u8>) -> bool {
    b.len() >= 2 && b.len() >= 2 + announced_len(b)
}

/// The frames complete at the front of `b`, in order, and the bytes that
/// are left: an incomplete frame, or nothing.
pub open spec fn parse_frames(b: Seq<u8>) -> (Seq<Seq<u8>>, Seq<u8>)
    decreases b.len(),
{
    if has_frame(b) {
        let end = 2 + announced_len(b);
        let rest = parse_frames(b.subrange(end, b.len() as int));
        (seq![b.subrange(2, end)] + rest.0, rest.1)
    } else {
        (Seq::empty(), b)
    }
}

pub open spec fn all_fit(ps: Seq<Seq<u8>>) -> bool {
    forall|i: int| 0 <= i < ps.len() ==> (#[trigger] ps[i]).len() <= MAX_FRAME_PAYLOAD
}

proof fn lemma_parse_one(p: Seq<u8>, rest: Seq<u8>)
    requires
        p.len() <= MAX_FRAME_PAYLOAD,
    ensures
        parse_frames(framed(p) + rest) == (seq![p] + parse_frames(rest).0, parse_frames(rest).1),
{
    let b = framed(p) + rest;
    let n = p.len();
    assert(b[0] == (n / 256) as u8 && b[1] == (n % 256) as u8);
    assert(announced_len(b) == n) by (nonlinear_arith)
        requires
            n <= 65535,
            b[0] == (n / 256) as u8,
            b[1] == (n % 256) as u8,
            announced_len(b) == b[0] as int * 256 + b[1] as int,
    ;
    assert(b.subrange(2, 2 + n as int) =~= p);
    assert(b.subrange(2 + n as int, b.len() as int) =~= rest);
}

/// What one end sends is what the other reads: parsing the frames of
/// payloads sent in order, followed by any bytes `rest`, gives back those
/// payloads in order, then what `rest` holds.
pub proof fn lemma_frames_round_trip(ps: Seq<Seq<u8>>, rest: Seq<u8>)
    requires
        all_fit(ps),
    ensures
        parse_frames(framed_all(ps) + rest) == (ps + parse_frames(rest).0, parse_frames(rest).1),
    decreases ps.len(),
{
    if ps.len() == 0 {
        assert(framed_all(ps) + rest =~= rest);
        assert(ps + parse_frames(rest).0 =~= parse_frames(rest).0);
    } else {
        let tail = ps.subrange(1, ps.len() as int);
        assert(all_fit(tail)) by {
            assert forall|i: int| 0 <= i < tail.len() implies (#[trigger] tail[i]).len()
                <= MAX_FRAME_PAYLOAD by {
                assert(tail[i] == ps[i + 1]);
            }
        }
        lemma_frames_round_trip(tail, rest);
        assert(framed_all(ps) + rest =~= framed(ps[0]) + (framed_all(tail) + rest));
        lemma_parse_one(ps[0], framed_all(tail) + rest);
        assert(seq![ps[0]] + (tail + parse_frames(rest).0) =~= ps + parse_frames(rest).0);
    }
}

/// A stream carrying exactly these payloads parses to exactly them.
pub proof fn lemma_frames_exact(ps: Seq<Seq<u8>>)
    requires
        all_fit(ps),
    ensures
        parse_frames(framed_all(ps)) == (ps, Seq::<u8>::empty()),
{
    lemma_frames_round_trip(ps, Seq::empty());
    assert(framed_all(ps) + Seq::<u8>::empty() =~= framed_all(ps));
    assert(parse_frames(Seq::<u8>::empty()) == (Seq::<Seq<u8>>::empty(), Seq::<u8>::empty()));
    assert(ps + Seq::<Seq<u8>>::empty() =~= ps);
}

/// Parsing a stream that arrives in two pieces gives what parsing it whole
/// gives: the frames of the first piece, then those of what it left over
/// followed by the second piece, and the same bytes left at the end.
pub proof fn lemma_parse_in_pieces(x: Seq<u8>, y: Seq<u8>)
    ensures
        parse_frames(x + y) == (
            parse_frames(x).0 + parse_frames(parse_frames(x).1 + y).0,
            parse_frames(parse_frames(x).1 + y).1,
        ),
    decreases x.len(),
{
    if has_frame(x) {
        let xy = x + y;
        let end = 2 + announced_len(x);
        assert(xy[0] == x[0] && xy[1] == x[1]);
        assert(has_frame(xy));
        let rest = x.subrange(end, x.len() as int);
        assert(xy.subrange(end, xy.len() as int) =~= rest + y);
        assert(xy.subrange(2, end) =~= x.subrange(2, end));
        lemma_parse_in_pieces(rest, y);
        let p = x.subrange(2, end);
        assert(seq![p] + (parse_frames(rest).0 + parse_frames(parse_frames(rest).1 + y).0) =~= (
        seq![p] + parse_frames(rest).0) + parse_frames(parse_frames(rest).1 + y).0);
    } else {
        assert(Seq::<Seq<u8>>::empty() + parse_frames(x + y).0 =~= parse_frames(x + y).0);
    }
}

/// Appends `src` to `dst`.
pub fn append_bytes(dst: &mut Vec<u8>, src: &[u8])
    ensures
        final(dst)@ == old(dst)@ + src@,
{
    let mut i: usize = 0;
    while i < src.len()
        invariant
            0 <= i <= src@.len(),
            dst@ == old(dst)@ + src@.subrange(0, i as int),
        decreases src@.len() - i,
    {
        dst.push(src[i]);
        i += 1;
        assert(dst@ =~= old(dst)@ + src@.subrange(0, i as int));
    }
    assert(src@.subrange(0, src@.len() as int) =~= src@);
}

/// The bytes of one frame for `payload`; `None` when it is longer than a
/// 16-bit length can announce.
pub fn frame_datagram(payload: &[u8]) -> (r: Option<Vec<u8>>)
    ensures
        payload@.len() <= MAX_FRAME_PAYLOAD ==> (r matches Some(v) && v@ == framed(payload@)),
        payload@.len() > MAX_FRAME_PAYLOAD ==> r is None,
{
    if payload.len() > MAX_FRAME_PAYLOAD {
        return None;
    }
    let n = payload.len();
    let mut out: Vec<u8> = Vec::new();
    out.push((n / 256) as u8);
    out.push((n % 256) as u8);
    append_bytes(&mut out, payload);
    assert(out@ =~= framed(payload@));
    Some(out)
}

/// Reassembles frames from a byte stream that arrives in pieces of any size.
pub struct Deframer {
    pending: Vec<u8>,
}

impl View for Deframer {
    type V = Seq<u8>;

    /// The bytes received that do not yet make a whole frame.
    closed spec fn view(&self) -> Seq<u8> {
        self.pending@
    }
}

pub open spec fn views_of(v: Seq<Vec<u8>>) -> Seq<Seq<u8>> {
    v.map_values(|x: Vec<u8>| x@)
}

impl Deframer {
    /// Nothing received yet.
    pub fn new() -> (r: Self)
        ensures
            r@ == Seq::<u8>::empty(),
    {
        Deframer { pending: Vec::new() }
    }

    /// Takes the next piece of the stream and returns the frames' payloads
    /// that it completes, in order.
    pub fn push(&mut self, data: &[u8]) -> (r: Vec<Vec<u8>>)
        ensures
            views_of(r@) == parse_frames(old(self)@ + data@).0,
            final(self)@ == parse_frames(old(self)@ + data@).1,
    {
        append_bytes(&mut self.pending, data);
        let ghost whole = self.pending@;
        let mut out: Vec<Vec<u8>> = Vec::new();
        let mut pos: usize = 0;
        let len = self.pending.len();
        assert(whole.subrange(0, len as int) =~= whole);
        assert(views_of(out@) + parse_frames(whole).0 =~= parse_frames(whole).0);
        loop
            invariant
                len == self.pending@.len(),
                self.pending@ == whole,
                0 <= pos <= len,
                parse_frames(whole) == (
                    views_of(out@) + parse_frames(whole.subrange(pos as int, len as int)).0,
                    parse_frames(whole.subrange(pos as int, len as int)).1,
                ),
            ensures
                0 <= pos <= len,
                parse_frames(whole) == (views_of(out@), whole.subrange(pos as int, len as int)),
            decreases len - pos,
        {
            let ghost cur = whole.subrange(pos as int, len as int);
            if len - pos < 2 {
                assert(views_of(out@) + Seq::<Seq<u8>>::empty() =~= views_of(out@));
                break;
            }
            let n = self.pending[pos] as usize * 256 + self.pending[pos + 1] as usize;
            assert(n == announced_len(cur));
            if len - pos - 2 < n {
                assert(views_of(out@) + Seq::<Seq<u8>>::empty() =~= views_of(out@));
                break;
            }
            let mut payload: Vec<u8> = Vec::new();
            append_bytes(&mut payload, &self.pending.as_slice()[pos + 2..pos + 2 + n]);
            proof {
                assert(payload@ =~= cur.subrange(2, 2 + n as int));
                assert(cur.subrange(2 + n as int, cur.len() as int) =~= whole.subrange(
                    (pos + 2 + n) as int,
                    len as int,
                ));
            }
            let ghost before = out@;
            out.push(payload);
            proof {
                assert(views_of(out@) =~= views_of(before) + seq![payload@]);
                assert(views_of(before) + seq![payload@] + parse_frames(
                    whole.subrange((pos + 2 + n) as int, len as int),
                ).0 =~= views_of(before) + (seq![payload@] + parse_frames(
                    whole.subrange((pos + 2 + n) as int, len as int),
                ).0));
            }
            pos = pos + 2 + n;
        }
        let rest = self.pending.split_off(pos);
        self.pending = rest;
        out
    }
}

} // verus!
