use vstd::prelude::*;

verus! {

/// A datagram peer's address: the four octets of an IPv4 address packed
/// big-endian into one integer, and the port.
#[derive(Clone, Copy, Debug, PartialEq, Eq, Structural)]
pub struct PeerAddr {
    pub ip: u32,
    pub port: u16,
}

/// The two-phase life of a connectionless socket: it has no peer until the
/// first packet names one, and from then on exactly one. Binding is both a
/// security boundary (no third party may inject traffic into the session)
/// and a simplification (one socket, one peer, one session).
#[derive(Clone, Copy, Debug, PartialEq, Eq, Structural)]
pub enum PeerBinding {
    Unbound,
    Bound(PeerAddr),
}

impl PeerBinding {
    pub fn new() -> (b: Self)
        ensures
            b is Unbound,
    {
        PeerBinding::Unbound
    }

    /// Learn the peer from the source address of its first packet. A peer is
    /// learned exactly once.
    pub fn bind(&mut self, addr: PeerAddr)
        requires
            *old(self) is Unbound,
        ensures
            *final(self) == PeerBinding::Bound(addr),
    {
        *self = PeerBinding::Bound(addr);
    }

    /// Whether traffic may flow at all: only a bound socket may exchange
    /// datagrams.
    pub fn is_bound(&self) -> (b: bool)
        ensures
            b == (*self is Bound),
    {
        match self {
            PeerBinding::Unbound => false,
            PeerBinding::Bound(_) => true,
        }
    }

    /// Whether a packet from `src` belongs to this session: accepted exactly
    /// when the socket is bound to that address; anything else is rejected.
    pub fn accepts(&self, src: PeerAddr) -> (b: bool)
        ensures
            b == (*self == PeerBinding::Bound(src)),
    {
        match self {
            PeerBinding::Unbound => false,
            PeerBinding::Bound(a) => *a == src,
        }
    }

    /// The learned peer, if any.
    pub fn peer(&self) -> (p: Option<PeerAddr>)
        ensures
            *self is Unbound ==> p is None,
            *self matches PeerBinding::Bound(a) ==> p == Some(a),
    {
        match self {
            PeerBinding::Unbound => None,
            PeerBinding::Bound(a) => Some(*a),
        }
    }
}

} // verus!
