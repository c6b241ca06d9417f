use vstd::prelude::*;

verus! {

/// A transport-level failure, modelled by the operating system's error code
/// for the failed call (0 when the platform reported none).
#[derive(Clone, Copy, Debug, PartialEq, Eq, Structural)]
pub struct IoError {
    pub code: i32,
}

/// Why a session ended, or could not be established.
///
/// `TransportClosed` is the one clean outcome: the remote side hung up in an
/// orderly way. Every other variant is an error. `OptionApplyFailure` is
/// non-fatal: it is recorded as a warning and never terminates a session.
#[derive(Clone, Copy, Debug, PartialEq, Eq, Structural)]
pub enum SessionError {
    /// Binding the datagram socket failed.
    BindFailure(IoError),
    /// Connecting either transport to its remote address failed.
    ConnectFailure(IoError),
    /// Applying a stream-socket tuning option failed (non-fatal).
    OptionApplyFailure(IoError),
    /// A datagram longer than 65535 bytes cannot be framed.
    OversizedDatagram,
    /// The stream ended in the middle of a frame's length prefix.
    TruncatedHeader,
    /// The stream ended before a frame's declared payload fully arrived.
    TruncatedPayload,
    /// The remote side closed its transport at a frame boundary.
    TransportClosed,
    /// An unclean transport failure while forwarding.
    TransportIoError(IoError),
}

impl SessionError {
    /// A clean close ends the session without being an application error.
    pub fn is_clean(&self) -> (b: bool)
        ensures
            b == (*self is TransportClosed),
    {
        match self {
            SessionError::TransportClosed => true,
            _ => false,
        }
    }
}

/// Error from establishing the stream side of a session.
#[derive(Clone, Copy, Debug, PartialEq, Eq, Structural)]
pub enum Udp2TcpError {
    /// Connecting to the stream forward address failed.
    ConnectTcp(IoError),
}

impl Udp2TcpError {
    /// The human-readable description of this error.
    pub fn message(&self) -> (m: &'static str)
        ensures
            m@ == "Failed to connect to TCP forward address"@,
    {
        match self {
            Udp2TcpError::ConnectTcp(_) => "Failed to connect to TCP forward address",
        }
    }

    /// The underlying transport failure that caused this error.
    pub fn source(&self) -> (e: IoError)
        ensures
            *self matches Udp2TcpError::ConnectTcp(cause) && e == cause,
    {
        match self {
            Udp2TcpError::ConnectTcp(cause) => *cause,
        }
    }
}

} // verus!
