use vstd::prelude::*;
use vstd::pervasive::unreached;

use crate::error::IoError;
use crate::error::SessionError;
use crate::frame::encode;
use crate::frame::frame_bytes;
use crate::frame::MAX_PAYLOAD_LEN;
use crate::peer::PeerAddr;
use crate::peer::PeerBinding;

verus! {

/// Stream-socket tuning, applied once to the stream before forwarding
/// begins. The keepalive interval is in whole seconds; a size or interval
/// left out means the platform default is kept.
#[derive(Clone, Copy, Debug)]
pub struct TcpOptions {
    pub nodelay: bool,
    pub recv_buffer_size: Option<u32>,
    pub send_buffer_size: Option<u32>,
    pub keepalive_secs: Option<u64>,
}

/// Where a session stands in its establishment sequence.
#[derive(Debug, PartialEq, Eq)]
pub enum SessionState {
    /// Connecting the stream socket to the forward address.
    ConnectingTcp,
    /// Stream connected; applying the tuning options.
    ApplyingOptions,
    /// Binding the datagram socket to its listen address.
    BindingUdp,
    /// Waiting for the first datagram, which names the peer.
    AwaitingFirstPacket,
    /// Locking the datagram socket to the learned peer. The first datagram
    /// is held here so that it is forwarded, not lost.
    ConnectingUdp { first: Vec<u8> },
    /// Writing the frame of the first datagram to the stream.
    ForwardingFirst,
    /// Steady state: both pumps run until either direction terminates.
    Pumping,
    /// The session is over; the terminating condition is recorded.
    Done(SessionError),
}

/// What the driving loop reports back to the orchestrator: the completion
/// of the one operation it was asked to perform.
#[derive(Debug, PartialEq, Eq)]
pub enum SessionEvent {
    TcpConnected,
    TcpConnectFailed(IoError),
    OptionsApplied,
    /// Applying a tuning option failed; by the error policy this is a
    /// warning, never a session end.
    OptionsFailed(IoError),
    UdpBound,
    UdpBindFailed(IoError),
    /// The first datagram arrived from `src` carrying `payload`.
    FirstPacket { src: PeerAddr, payload: Vec<u8> },
    FirstRecvFailed(IoError),
    UdpConnected,
    UdpConnectFailed(IoError),
    StreamWriteOk,
    StreamWriteFailed(IoError),
    /// One pump direction terminated and the other has been unwound.
    PumpsEnded(SessionError),
}

/// The one operation the orchestrator asks its driving loop to perform
/// next; the loop performs it and reports the matching completion event.
#[derive(Debug, PartialEq, Eq)]
pub enum SessionAction {
    /// Connect the stream socket to the forward address.
    ConnectTcp,
    /// Apply the stream tuning options to the connected stream.
    ApplyTcpOptions,
    /// Bind the datagram socket to its listen address.
    BindUdp,
    /// Receive one datagram, reporting its payload and source address.
    RecvFirstPacket,
    /// Lock the datagram socket to the learned peer: from now on traffic is
    /// exchanged with this address alone.
    ConnectUdp(PeerAddr),
    /// Write these bytes to the stream in full, retrying partial writes.
    WriteStream(Vec<u8>),
    /// Run both pumps until either direction terminates; then cancel the
    /// other promptly and release both transports.
    RunPumps,
    /// Nothing is left to do: report the recorded outcome to the caller.
    Report(SessionError),
}

/// Which completion events can answer which state's pending operation.
pub open spec fn event_fits(s: SessionState, e: SessionEvent) -> bool {
    match (s, e) {
        (SessionState::ConnectingTcp, SessionEvent::TcpConnected) => true,
        (SessionState::ConnectingTcp, SessionEvent::TcpConnectFailed(_)) => true,
        (SessionState::ApplyingOptions, SessionEvent::OptionsApplied) => true,
        (SessionState::ApplyingOptions, SessionEvent::OptionsFailed(_)) => true,
        (SessionState::BindingUdp, SessionEvent::UdpBound) => true,
        (SessionState::BindingUdp, SessionEvent::UdpBindFailed(_)) => true,
        (SessionState::AwaitingFirstPacket, SessionEvent::FirstPacket { .. }) => true,
        (SessionState::AwaitingFirstPacket, SessionEvent::FirstRecvFailed(_)) => true,
        (SessionState::ConnectingUdp { .. }, SessionEvent::UdpConnected) => true,
        (SessionState::ConnectingUdp { .. }, SessionEvent::UdpConnectFailed(_)) => true,
        (SessionState::ForwardingFirst, SessionEvent::StreamWriteOk) => true,
        (SessionState::ForwardingFirst, SessionEvent::StreamWriteFailed(_)) => true,
        (SessionState::Pumping, SessionEvent::PumpsEnded(_)) => true,
        _ => false,
    }
}

/// The orchestrator, which owns both transports for the session's lifetime:
/// it sequences establishment — connect and tune the stream, bind the
/// datagram socket, learn the peer from its first packet, forward that
/// already-consumed packet — then hands over to steady-state pumping and
/// records the terminating condition.
#[derive(Debug)]
pub struct Session {
    pub state: SessionState,
    /// The datagram peer, once learned.
    pub peer: PeerBinding,
    /// A non-fatal warning recorded if tuning the stream socket failed.
    pub option_warning: Option<IoError>,
}

/// The transition relation of the orchestrator: from the pre-state and a
/// completion event to the post-state and the next action for the loop.
pub open spec fn step_rel(pre: Session, e: SessionEvent, post: Session, a: SessionAction) -> bool {
    match (pre.state, e) {
        (SessionState::ConnectingTcp, SessionEvent::TcpConnected) => {
            &&& post == (Session { state: SessionState::ApplyingOptions, ..pre })
            &&& a == SessionAction::ApplyTcpOptions
        },
        (SessionState::ConnectingTcp, SessionEvent::TcpConnectFailed(err)) => {
            &&& post == (Session {
                state: SessionState::Done(SessionError::ConnectFailure(err)),
                ..pre
            })
            &&& a == SessionAction::Report(SessionError::ConnectFailure(err))
        },
        (SessionState::ApplyingOptions, SessionEvent::OptionsApplied) => {
            &&& post == (Session { state: SessionState::BindingUdp, ..pre })
            &&& a == SessionAction::BindUdp
        },
        (SessionState::ApplyingOptions, SessionEvent::OptionsFailed(err)) => {
            &&& post == (Session {
                state: SessionState::BindingUdp,
                option_warning: Some(err),
                ..pre
            })
            &&& a == SessionAction::BindUdp
        },
        (SessionState::BindingUdp, SessionEvent::UdpBound) => {
            &&& post == (Session { state: SessionState::AwaitingFirstPacket, ..pre })
            &&& a == SessionAction::RecvFirstPacket
        },
        (SessionState::BindingUdp, SessionEvent::UdpBindFailed(err)) => {
            &&& post == (Session {
                state: SessionState::Done(SessionError::BindFailure(err)),
                ..pre
            })
            &&& a == SessionAction::Report(SessionError::BindFailure(err))
        },
        (SessionState::AwaitingFirstPacket, SessionEvent::FirstPacket { src, payload }) => {
            &&& post == (Session {
                state: SessionState::ConnectingUdp { first: payload },
                peer: PeerBinding::Bound(src),
                ..pre
            })
            &&& a == SessionAction::ConnectUdp(src)
        },
        (SessionState::AwaitingFirstPacket, SessionEvent::FirstRecvFailed(err)) => {
            &&& post == (Session {
                state: SessionState::Done(SessionError::TransportIoError(err)),
                ..pre
            })
            &&& a == SessionAction::Report(SessionError::TransportIoError(err))
        },
        (SessionState::ConnectingUdp { first }, SessionEvent::UdpConnected) => {
            if first@.len() <= MAX_PAYLOAD_LEN {
                &&& post == (Session { state: SessionState::ForwardingFirst, ..pre })
                &&& a matches SessionAction::WriteStream(f) && f@ == frame_bytes(first@)
            } else {
                &&& post == (Session {
                    state: SessionState::Done(SessionError::OversizedDatagram),
                    ..pre
                })
                &&& a == SessionAction::Report(SessionError::OversizedDatagram)
            }
        },
        (SessionState::ConnectingUdp { .. }, SessionEvent::UdpConnectFailed(err)) => {
            &&& post == (Session {
                state: SessionState::Done(SessionError::ConnectFailure(err)),
                ..pre
            })
            &&& a == SessionAction::Report(SessionError::ConnectFailure(err))
        },
        (SessionState::ForwardingFirst, SessionEvent::StreamWriteOk) => {
            &&& post == (Session { state: SessionState::Pumping, ..pre })
            &&& a == SessionAction::RunPumps
        },
        (SessionState::ForwardingFirst, SessionEvent::StreamWriteFailed(err)) => {
            &&& post == (Session {
                state: SessionState::Done(SessionError::TransportIoError(err)),
                ..pre
            })
            &&& a == SessionAction::Report(SessionError::TransportIoError(err))
        },
        (SessionState::Pumping, SessionEvent::PumpsEnded(end)) => {
            &&& post == (Session { state: SessionState::Done(end), ..pre })
            &&& a == SessionAction::Report(end)
        },
        _ => false,
    }
}

/// A finished session is terminal: no completion event fits the `Done`
/// state, so a session that has reported its outcome can never be stepped
/// again — the first direction to end really does end the whole session.
pub proof fn lemma_done_is_terminal(end: SessionError, e: SessionEvent)
    ensures
        !event_fits(SessionState::Done(end), e),
{
}

impl Session {
    /// The peer is unbound until the first packet names it, and stays bound
    /// from then on: no forwarding state is reachable without a bound peer.
    pub open spec fn wf(&self) -> bool {
        match self.state {
            SessionState::ConnectingTcp
            | SessionState::ApplyingOptions
            | SessionState::BindingUdp
            | SessionState::AwaitingFirstPacket => self.peer is Unbound,
            SessionState::ConnectingUdp { .. }
            | SessionState::ForwardingFirst
            | SessionState::Pumping => self.peer is Bound,
            SessionState::Done(_) => true,
        }
    }

    pub fn new() -> (s: Self)
        ensures
            s.wf(),
            s.state is ConnectingTcp,
            s.peer is Unbound,
            s.option_warning is None,
    {
        Session {
            state: SessionState::ConnectingTcp,
            peer: PeerBinding::new(),
            option_warning: None,
        }
    }

    /// The first operation of every session: connect the stream side.
    pub fn initial_action(&self) -> (a: SessionAction)
        requires
            self.state is ConnectingTcp,
        ensures
            a == SessionAction::ConnectTcp,
    {
        SessionAction::ConnectTcp
    }

    /// Whether `e` is a completion that the current state awaits. A loop
    /// that only feeds back the completion of the action it was handed
    /// always passes this check.
    pub fn expects(&self, e: &SessionEvent) -> (b: bool)
        ensures
            b == event_fits(self.state, *e),
    {
        match (&self.state, e) {
            (SessionState::ConnectingTcp, SessionEvent::TcpConnected) => true,
            (SessionState::ConnectingTcp, SessionEvent::TcpConnectFailed(_)) => true,
            (SessionState::ApplyingOptions, SessionEvent::OptionsApplied) => true,
            (SessionState::ApplyingOptions, SessionEvent::OptionsFailed(_)) => true,
            (SessionState::BindingUdp, SessionEvent::UdpBound) => true,
            (SessionState::BindingUdp, SessionEvent::UdpBindFailed(_)) => true,
            (SessionState::AwaitingFirstPacket, SessionEvent::FirstPacket { .. }) => true,
            (SessionState::AwaitingFirstPacket, SessionEvent::FirstRecvFailed(_)) => true,
            (SessionState::ConnectingUdp { .. }, SessionEvent::UdpConnected) => true,
            (SessionState::ConnectingUdp { .. }, SessionEvent::UdpConnectFailed(_)) => true,
            (SessionState::ForwardingFirst, SessionEvent::StreamWriteOk) => true,
            (SessionState::ForwardingFirst, SessionEvent::StreamWriteFailed(_)) => true,
            (SessionState::Pumping, SessionEvent::PumpsEnded(_)) => true,
            _ => false,
        }
    }

    /// One transition of the orchestrator: consume the completion of the
    /// previous operation, move to the next state, and hand the driving
    /// loop its next operation.
    pub fn step(&mut self, event: SessionEvent) -> (a: SessionAction)
        requires
            old(self).wf(),
            event_fits(old(self).state, event),
        ensures
            final(self).wf(),
            step_rel(*old(self), event, *final(self), a),
    {
        match event {
            SessionEvent::TcpConnected => {
                self.state = SessionState::ApplyingOptions;
                SessionAction::ApplyTcpOptions
            },
            SessionEvent::TcpConnectFailed(err) => {
                self.state = SessionState::Done(SessionError::ConnectFailure(err));
                SessionAction::Report(SessionError::ConnectFailure(err))
            },
            SessionEvent::OptionsApplied => {
                self.state = SessionState::BindingUdp;
                SessionAction::BindUdp
            },
            SessionEvent::OptionsFailed(err) => {
                self.option_warning = Some(err);
                self.state = SessionState::BindingUdp;
                SessionAction::BindUdp
            },
            SessionEvent::UdpBound => {
                self.state = SessionState::AwaitingFirstPacket;
                SessionAction::RecvFirstPacket
            },
            SessionEvent::UdpBindFailed(err) => {
                self.state = SessionState::Done(SessionError::BindFailure(err));
                SessionAction::Report(SessionError::BindFailure(err))
            },
            SessionEvent::FirstPacket { src, payload } => {
                self.peer.bind(src);
                self.state = SessionState::ConnectingUdp { first: payload };
                SessionAction::ConnectUdp(src)
            },
            SessionEvent::FirstRecvFailed(err) => {
                self.state = SessionState::Done(SessionError::TransportIoError(err));
                SessionAction::Report(SessionError::TransportIoError(err))
            },
            SessionEvent::UdpConnected => {
                match &self.state {
                    SessionState::ConnectingUdp { first } => {
                        match encode(first.as_slice()) {
                            Ok(f) => {
                                self.state = SessionState::ForwardingFirst;
                                SessionAction::WriteStream(f)
                            },
                            Err(_) => {
                                self.state = SessionState::Done(SessionError::OversizedDatagram);
                                SessionAction::Report(SessionError::OversizedDatagram)
                            },
                        }
                    },
                    _ => unreached(),
                }
            },
            SessionEvent::UdpConnectFailed(err) => {
                self.state = SessionState::Done(SessionError::ConnectFailure(err));
                SessionAction::Report(SessionError::ConnectFailure(err))
            },
            SessionEvent::StreamWriteOk => {
                self.state = SessionState::Pumping;
                SessionAction::RunPumps
            },
            SessionEvent::StreamWriteFailed(err) => {
                self.state = SessionState::Done(SessionError::TransportIoError(err));
                SessionAction::Report(SessionError::TransportIoError(err))
            },
            SessionEvent::PumpsEnded(end) => {
                self.state = SessionState::Done(end);
                SessionAction::Report(end)
            },
        }
    }
}

} // verus!
