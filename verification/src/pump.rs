use vstd::prelude::*;

use crate::error::SessionError;
use crate::frame::encode;
use crate::frame::frame_bytes;
use crate::frame::frames_concat;
use crate::frame::has_frame;
use crate::frame::lemma_frames_concat_snoc;
use crate::frame::lemma_ordering;
use crate::frame::lemma_parse_incremental;
use crate::frame::parse_residue;
use crate::frame::parsed_frames;
use crate::frame::FrameDecoder;
use crate::frame::MAX_PAYLOAD_LEN;

verus! {

/// The datagram-to-stream pump: every datagram received from the bound peer
/// becomes one frame appended to the stream. The ghost history records both
/// the payloads forwarded and the exact bytes produced for the wire.
pub struct UdpToTcpPump {
    /// Every payload forwarded so far, oldest first.
    pub forwarded: Ghost<Seq<Seq<u8>>>,
    /// Every byte handed to the stream so far, in order.
    pub stream_out: Ghost<Seq<u8>>,
}

impl UdpToTcpPump {
    /// The bytes put on the wire are exactly the frames of the forwarded
    /// payloads, in order: no datagram merged, split, reordered or invented.
    /// Only representable payloads are ever forwarded.
    pub open spec fn wf(&self) -> bool {
        &&& self.stream_out@ == frames_concat(self.forwarded@)
        &&& forall|i: int|
            0 <= i < self.forwarded@.len() ==> #[trigger] self.forwarded@[i].len()
                <= MAX_PAYLOAD_LEN
    }

    pub fn new() -> (p: Self)
        ensures
            p.wf(),
            p.forwarded@ == Seq::<Seq<u8>>::empty(),
            p.stream_out@ == Seq::<u8>::empty(),
    {
        let p = UdpToTcpPump { forwarded: Ghost(Seq::empty()), stream_out: Ghost(Seq::empty()) };
        proof {
            assert(frames_concat(Seq::<Seq<u8>>::empty()) =~= Seq::<u8>::empty());
        }
        p
    }

    /// One step of the pump: frame the datagram just received. On success the
    /// caller writes the returned bytes to the stream in full (retrying any
    /// partial write); a datagram too large to frame terminates the session.
    pub fn handle_datagram(&mut self, payload: &[u8]) -> (r: Result<Vec<u8>, SessionError>)
        requires
            old(self).wf(),
        ensures
            final(self).wf(),
            payload@.len() <= MAX_PAYLOAD_LEN ==> (r matches Ok(f) && f@ == frame_bytes(payload@)
                && final(self).forwarded@ == old(self).forwarded@.push(payload@)
                && final(self).stream_out@ == old(self).stream_out@ + frame_bytes(payload@)),
            payload@.len() > MAX_PAYLOAD_LEN ==> (r == Err::<Vec<u8>, SessionError>(
                SessionError::OversizedDatagram,
            ) && *final(self) == *old(self)),
    {
        match encode(payload) {
            Ok(f) => {
                proof {
                    lemma_frames_concat_snoc(self.forwarded@, payload@);
                }
                self.forwarded = Ghost(self.forwarded@.push(payload@));
                self.stream_out = Ghost(self.stream_out@ + frame_bytes(payload@));
                Ok(f)
            },
            Err(e) => Err(e),
        }
    }
}

/// Ordering across an open session: once every byte the sending pump has
/// produced has reached the receiving pump — in whatever chunking the
/// stream happened to deliver — the receiving side has handed out exactly
/// the datagrams the sending side took in: the same payloads, in the same
/// order, with none merged, split, dropped or left over.
pub proof fn lemma_session_ordering(tx: UdpToTcpPump, rx: TcpToUdpPump)
    requires
        tx.wf(),
        rx.wf(),
        rx.taken_in@ == tx.stream_out@,
    ensures
        rx.delivered@ == tx.forwarded@,
        rx.decoder@.len() == 0,
{
    lemma_ordering(tx.forwarded@);
}

/// The stream-to-datagram pump: bytes read from the stream are decoded and
/// each completed frame's payload is sent onward as one discrete datagram to
/// the bound peer. The ghost history records the bytes taken in and the
/// payloads handed out.
pub struct TcpToUdpPump {
    /// Reassembles frames from the incoming byte stream.
    pub decoder: FrameDecoder,
    /// Every stream byte taken in so far, in order.
    pub taken_in: Ghost<Seq<u8>>,
    /// Every payload handed out for sending so far, oldest first.
    pub delivered: Ghost<Seq<Seq<u8>>>,
}

impl TcpToUdpPump {
    /// Whatever chunking the transport delivered, the payloads handed out
    /// are exactly the complete frames of the bytes taken in, in wire order,
    /// and the decoder holds exactly the unfinished remainder.
    pub open spec fn wf(&self) -> bool {
        &&& self.decoder.wf()
        &&& self.decoder@ == parse_residue(self.taken_in@)
        &&& self.delivered@ == parsed_frames(self.taken_in@)
    }

    pub fn new() -> (p: Self)
        ensures
            p.wf(),
            p.taken_in@ == Seq::<u8>::empty(),
            p.delivered@ == Seq::<Seq<u8>>::empty(),
    {
        let p = TcpToUdpPump {
            decoder: FrameDecoder::new(),
            taken_in: Ghost(Seq::empty()),
            delivered: Ghost(Seq::empty()),
        };
        proof {
            assert(!has_frame(Seq::<u8>::empty()));
        }
        p
    }

    /// One step of the pump: feed the chunk just read from the stream.
    /// Returns the payloads of every frame the chunk completed, in wire
    /// order, each to be sent as one discrete datagram.
    pub fn handle_stream_bytes(&mut self, chunk: &[u8]) -> (dgrams: Vec<Vec<u8>>)
        requires
            old(self).wf(),
        ensures
            final(self).wf(),
            final(self).taken_in@ == old(self).taken_in@ + chunk@,
            final(self).delivered@ == old(self).delivered@ + dgrams@.map_values(
                |d: Vec<u8>| d@,
            ),
            dgrams@.map_values(|d: Vec<u8>| d@) == parsed_frames(
                parse_residue(old(self).taken_in@) + chunk@,
            ),
    {
        proof {
            lemma_parse_incremental(self.taken_in@, chunk@);
        }
        let dgrams = self.decoder.push_chunk(chunk);
        self.taken_in = Ghost(self.taken_in@ + chunk@);
        self.delivered = Ghost(self.delivered@ + dgrams@.map_values(|d: Vec<u8>| d@));
        dgrams
    }

    /// The remote side ended the stream: classify the close. A boundary
    /// between frames is a clean hangup; anything buffered means the stream
    /// was cut mid-frame.
    pub fn handle_stream_closed(&self) -> (r: SessionError)
        requires
            self.wf(),
        ensures
            parse_residue(self.taken_in@).len() == 0 ==> r == SessionError::TransportClosed,
            0 < parse_residue(self.taken_in@).len() < 2 ==> r == SessionError::TruncatedHeader,
            parse_residue(self.taken_in@).len() >= 2 ==> r == SessionError::TruncatedPayload,
    {
        self.decoder.close_outcome()
    }
}

} // verus!
