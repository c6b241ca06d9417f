use vstd::prelude::*;

use crate::error::SessionError;

verus! {

/// Largest payload one frame can carry: its length field is 16 bits wide.
pub const MAX_PAYLOAD_LEN: usize = 65535;

/// The two length-prefix bytes announcing a payload of `len` bytes:
/// the length in big-endian byte order.
pub open spec fn len_prefix(len: nat) -> Seq<u8>
    recommends
        len <= MAX_PAYLOAD_LEN,
{
    seq![(len / 256) as u8, (len % 256) as u8]
}

/// The wire form of one frame: the big-endian 16-bit payload length,
/// immediately followed by the payload itself.
pub open spec fn frame_bytes(p: Seq<u8>) -> Seq<u8>
    recommends
        p.len() <= MAX_PAYLOAD_LEN,
{
    len_prefix(p.len()) + p
}

/// The payload length announced by the first two bytes of `b`.
pub open spec fn declared_len(b: Seq<u8>) -> nat
    recommends
        b.len() >= 2,
{
    (b[0] as nat) * 256 + (b[1] as nat)
}

/// Whether `b` begins with one complete frame.
pub open spec fn has_frame(b: Seq<u8>) -> bool {
    b.len() >= 2 && b.len() >= 2 + declared_len(b)
}

/// The payloads of every complete frame at the front of `b`, in wire order.
pub open spec fn parsed_frames(b: Seq<u8>) -> Seq<Seq<u8>>
    decreases b.len(),
{
    if has_frame(b) {
        seq![b.subrange(2, 2 + declared_len(b) as int)]
            + parsed_frames(b.skip(2 + declared_len(b) as int))
    } else {
        Seq::empty()
    }
}

/// What remains of `b` once every complete frame at its front is removed:
/// a strict prefix of a frame (possibly empty).
pub open spec fn parse_residue(b: Seq<u8>) -> Seq<u8>
    decreases b.len(),
{
    if has_frame(b) {
        parse_residue(b.skip(2 + declared_len(b) as int))
    } else {
        b
    }
}

/// Frame a payload for the wire: succeeds exactly when the payload fits a
/// 16-bit length, and then yields the length prefix followed by the payload.
/// An empty payload is legal and yields a bare two-byte header.
pub fn encode(payload: &[u8]) -> (r: Result<Vec<u8>, SessionError>)
    ensures
        payload@.len() <= MAX_PAYLOAD_LEN ==> (r matches Ok(f) && f@ == frame_bytes(payload@)),
        payload@.len() > MAX_PAYLOAD_LEN ==> r == Err::<Vec<u8>, SessionError>(
            SessionError::OversizedDatagram,
        ),
{
    if payload.len() > MAX_PAYLOAD_LEN {
        return Err(SessionError::OversizedDatagram);
    }
    let len: usize = payload.len();
    let mut out: Vec<u8> = Vec::new();
    out.push((len / 256) as u8);
    out.push((len % 256) as u8);
    assert(out@ =~= len_prefix(len as nat) + payload@.subrange(0, 0));
    let mut i: usize = 0;
    while i < payload.len()
        invariant
            i <= payload@.len(),
            payload@.len() == len,
            len <= MAX_PAYLOAD_LEN,
            out@ == len_prefix(len as nat) + payload@.subrange(0, i as int),
        decreases payload@.len() - i,
    {
        out.push(payload[i]);
        assert(out@ =~= len_prefix(len as nat) + payload@.subrange(0, i + 1));
        i = i + 1;
    }
    assert(out@ =~= frame_bytes(payload@));
    Ok(out)
}

/// The wire image of a whole sequence of payloads: their frames, one after
/// another, in the order the payloads were sent.
pub open spec fn frames_concat(ps: Seq<Seq<u8>>) -> Seq<u8>
    decreases ps.len(),
{
    if ps.len() == 0 {
        Seq::empty()
    } else {
        frame_bytes(ps[0]) + frames_concat(ps.skip(1))
    }
}

/// Appending one more payload to a history appends exactly its frame to the
/// wire image.
pub proof fn lemma_frames_concat_snoc(ps: Seq<Seq<u8>>, p: Seq<u8>)
    ensures
        frames_concat(ps.push(p)) == frames_concat(ps) + frame_bytes(p),
    decreases ps.len(),
{
    if ps.len() == 0 {
        assert(ps.push(p)[0] == p);
        assert(ps.push(p).skip(1) =~= Seq::<Seq<u8>>::empty());
        assert(frames_concat(ps.push(p)) == frame_bytes(p) + frames_concat(
            Seq::<Seq<u8>>::empty(),
        ));
        assert(frames_concat(Seq::<Seq<u8>>::empty()) == Seq::<u8>::empty());
        assert(frames_concat(ps.push(p)) =~= frames_concat(ps) + frame_bytes(p));
    } else {
        lemma_frames_concat_snoc(ps.skip(1), p);
        assert(ps.push(p)[0] == ps[0]);
        assert(ps.push(p).skip(1) =~= ps.skip(1).push(p));
        assert(frames_concat(ps.push(p)) =~= frames_concat(ps) + frame_bytes(p));
    }
}

/// A byte stream that starts with one whole frame parses to that frame's
/// payload followed by whatever the remainder parses to.
pub proof fn lemma_parse_frame_prefix(p: Seq<u8>, rest: Seq<u8>)
    requires
        p.len() <= MAX_PAYLOAD_LEN,
    ensures
        parsed_frames(frame_bytes(p) + rest) == seq![p] + parsed_frames(rest),
        parse_residue(frame_bytes(p) + rest) == parse_residue(rest),
{
    let b = frame_bytes(p) + rest;
    let l = p.len();
    assert(b[0] == (l / 256) as u8);
    assert(b[1] == (l % 256) as u8);
    assert(l / 256 < 256);
    assert(l == (l / 256) * 256 + l % 256) by {
        vstd::arithmetic::div_mod::lemma_fundamental_div_mod(l as int, 256);
    }
    assert(declared_len(b) == l);
    assert(has_frame(b));
    assert(b.subrange(2, 2 + l as int) =~= p);
    assert(b.skip(2 + l as int) =~= rest);
    assert(parsed_frames(b) == seq![p] + parsed_frames(rest));
    assert(parse_residue(b) == parse_residue(rest));
}

/// Round trip: the frame built from any representable payload decodes back
/// to exactly that payload, with nothing left over.
pub proof fn lemma_round_trip(p: Seq<u8>)
    requires
        p.len() <= MAX_PAYLOAD_LEN,
    ensures
        parsed_frames(frame_bytes(p)) == seq![p],
        parse_residue(frame_bytes(p)) == Seq::<u8>::empty(),
{
    lemma_parse_frame_prefix(p, Seq::empty());
    assert(frame_bytes(p) + Seq::<u8>::empty() =~= frame_bytes(p));
    assert(seq![p] + parsed_frames(Seq::<u8>::empty()) =~= seq![p]);
}

/// Ordering: the concatenated frames of a sequence of payloads parse back to
/// exactly that sequence — same payloads, same order, no merging, splitting
/// or reordering — with nothing left over.
pub proof fn lemma_ordering(ps: Seq<Seq<u8>>)
    requires
        forall|i: int| 0 <= i < ps.len() ==> #[trigger] ps[i].len() <= MAX_PAYLOAD_LEN,
    ensures
        parsed_frames(frames_concat(ps)) == ps,
        parse_residue(frames_concat(ps)) == Seq::<u8>::empty(),
    decreases ps.len(),
{
    if ps.len() == 0 {
        assert(!has_frame(Seq::<u8>::empty()));
        assert(parsed_frames(frames_concat(ps)) =~= ps);
    } else {
        lemma_ordering(ps.skip(1));
        lemma_parse_frame_prefix(ps[0], frames_concat(ps.skip(1)));
        assert(seq![ps[0]] + ps.skip(1) =~= ps);
    }
}

/// Chunking does not matter: parsing a stream delivered in two pieces — the
/// first piece's residue carried over and joined with the second — yields the
/// same frames, in order, as parsing the whole stream at once.
pub proof fn lemma_parse_incremental(b1: Seq<u8>, b2: Seq<u8>)
    ensures
        parsed_frames(b1 + b2) == parsed_frames(b1) + parsed_frames(parse_residue(b1) + b2),
        parse_residue(b1 + b2) == parse_residue(parse_residue(b1) + b2),
    decreases b1.len(),
{
    let b = b1 + b2;
    if has_frame(b1) {
        let k = 2 + declared_len(b1) as int;
        assert(b[0] == b1[0]);
        assert(b[1] == b1[1]);
        assert(declared_len(b) == declared_len(b1));
        assert(has_frame(b));
        assert(b.subrange(2, k) =~= b1.subrange(2, k));
        assert(b.skip(k) =~= b1.skip(k) + b2);
        lemma_parse_incremental(b1.skip(k), b2);
        assert(parse_residue(b1) == parse_residue(b1.skip(k)));
        assert(parsed_frames(b1) == seq![b1.subrange(2, k)] + parsed_frames(b1.skip(k)));
        assert(parsed_frames(b) =~= parsed_frames(b1) + parsed_frames(
            parse_residue(b1) + b2,
        ));
    } else {
        assert(parse_residue(b1) == b1);
        assert(parsed_frames(b1) == Seq::<Seq<u8>>::empty());
        assert(parse_residue(b1) + b2 =~= b);
        assert(parsed_frames(b) =~= parsed_frames(b1) + parsed_frames(
            parse_residue(b1) + b2,
        ));
    }
}

/// Incremental decoder for the stream side: bytes arrive in whatever chunks
/// the transport delivers, and each payload is handed out as soon as its
/// frame is complete. Its view is the bytes received but not yet part of a
/// complete frame.
pub struct FrameDecoder {
    buf: Vec<u8>,
}

impl View for FrameDecoder {
    type V = Seq<u8>;

    closed spec fn view(&self) -> Seq<u8> {
        self.buf@
    }
}

impl FrameDecoder {
    /// A decoder never sits on a complete frame: whatever it buffers is a
    /// strict prefix of one.
    pub open spec fn wf(&self) -> bool {
        !has_frame(self@)
    }

    pub fn new() -> (d: Self)
        ensures
            d.wf(),
            d@ == Seq::<u8>::empty(),
    {
        FrameDecoder { buf: Vec::new() }
    }

    /// How many bytes of an incomplete frame are currently buffered.
    pub fn buffered(&self) -> (n: usize)
        ensures
            n == self@.len(),
    {
        self.buf.len()
    }

    /// Feed the next chunk of stream bytes. Returns the payloads of every
    /// frame completed by this chunk, in wire order; the decoder keeps the
    /// residue, so bytes may be fed one at a time or all at once.
    pub fn push_chunk(&mut self, chunk: &[u8]) -> (frames: Vec<Vec<u8>>)
        requires
            old(self).wf(),
        ensures
            final(self).wf(),
            frames@.map_values(|f: Vec<u8>| f@) == parsed_frames(old(self)@ + chunk@),
            final(self)@ == parse_residue(old(self)@ + chunk@),
    {
        let mut i: usize = 0;
        while i < chunk.len()
            invariant
                i <= chunk@.len(),
                self.buf@ == old(self)@ + chunk@.subrange(0, i as int),
            decreases chunk@.len() - i,
        {
            self.buf.push(chunk[i]);
            assert(self.buf@ =~= old(self)@ + chunk@.subrange(0, i + 1));
            i = i + 1;
        }
        assert(self.buf@ =~= old(self)@ + chunk@);
        let ghost all: Seq<u8> = self.buf@;
        let mut frames: Vec<Vec<u8>> = Vec::new();
        loop
            invariant
                parsed_frames(all) == frames@.map_values(|f: Vec<u8>| f@) + parsed_frames(
                    self.buf@,
                ),
                parse_residue(all) == parse_residue(self.buf@),
            ensures
                !has_frame(self.buf@),
                frames@.map_values(|f: Vec<u8>| f@) == parsed_frames(all),
                self.buf@ == parse_residue(all),
            decreases self.buf@.len(),
        {
            if self.buf.len() < 2 {
                assert(frames@.map_values(|f: Vec<u8>| f@) =~= parsed_frames(all));
                break;
            }
            let n: usize = (self.buf[0] as usize) * 256 + (self.buf[1] as usize);
            assert(n == declared_len(self.buf@));
            if self.buf.len() - 2 < n {
                assert(frames@.map_values(|f: Vec<u8>| f@) =~= parsed_frames(all));
                break;
            }
            let ghost prev: Seq<u8> = self.buf@;
            let mut payload: Vec<u8> = Vec::new();
            let mut j: usize = 2;
            while j < 2 + n
                invariant
                    n <= MAX_PAYLOAD_LEN,
                    2 <= j <= 2 + n,
                    self.buf@ == prev,
                    prev.len() >= 2 + n,
                    payload@ == prev.subrange(2, j as int),
                decreases 2 + n - j,
            {
                payload.push(self.buf[j]);
                assert(payload@ =~= prev.subrange(2, j + 1));
                j = j + 1;
            }
            let mut rest: Vec<u8> = Vec::new();
            let mut k: usize = 2 + n;
            while k < self.buf.len()
                invariant
                    2 + n <= k <= prev.len(),
                    self.buf@ == prev,
                    prev.len() >= 2 + n,
                    rest@ == prev.subrange(2 + n, k as int),
                decreases prev.len() - k,
            {
                rest.push(self.buf[k]);
                assert(rest@ =~= prev.subrange(2 + n, k + 1));
                k = k + 1;
            }
            assert(rest@ =~= prev.skip(2 + n));
            self.buf = rest;
            let ghost mapped_before: Seq<Seq<u8>> = frames@.map_values(|f: Vec<u8>| f@);
            frames.push(payload);
            proof {
                assert(frames@.map_values(|f: Vec<u8>| f@) =~= mapped_before + seq![
                    payload@,
                ]);
                assert(parsed_frames(prev) =~= seq![payload@] + parsed_frames(self.buf@));
                assert(parsed_frames(all) =~= frames@.map_values(|f: Vec<u8>| f@)
                    + parsed_frames(self.buf@));
            }
        }
        frames
    }

    /// How a stream that ends now is classified: a clean close at a frame
    /// boundary, a cut inside the length prefix, or a cut inside a payload.
    pub fn close_outcome(&self) -> (r: SessionError)
        requires
            self.wf(),
        ensures
            self@.len() == 0 ==> r == SessionError::TransportClosed,
            0 < self@.len() < 2 ==> r == SessionError::TruncatedHeader,
            self@.len() >= 2 ==> r == SessionError::TruncatedPayload,
    {
        if self.buf.len() == 0 {
            SessionError::TransportClosed
        } else if self.buf.len() < 2 {
            SessionError::TruncatedHeader
        } else {
            SessionError::TruncatedPayload
        }
    }
}

} // verus!
