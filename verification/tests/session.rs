use udp_over_tcp::error::IoError;
use udp_over_tcp::error::SessionError;
use udp_over_tcp::error::Udp2TcpError;
use udp_over_tcp::frame::MAX_PAYLOAD_LEN;
use udp_over_tcp::peer::PeerAddr;
use udp_over_tcp::peer::PeerBinding;
use udp_over_tcp::pump::TcpToUdpPump;
use udp_over_tcp::pump::UdpToTcpPump;
use udp_over_tcp::session::Session;
use udp_over_tcp::session::SessionAction;
use udp_over_tcp::session::SessionEvent;
use udp_over_tcp::session::SessionState;

fn peer() -> PeerAddr {
    // 192.0.2.33:4567
    PeerAddr { ip: 0xc0000221, port: 4567 }
}

#[test]
fn happy_path_ping_pong() {
    let mut s = Session::new();
    assert_eq!(s.initial_action(), SessionAction::ConnectTcp);
    assert_eq!(s.step(SessionEvent::TcpConnected), SessionAction::ApplyTcpOptions);
    assert_eq!(s.step(SessionEvent::OptionsApplied), SessionAction::BindUdp);
    assert_eq!(s.step(SessionEvent::UdpBound), SessionAction::RecvFirstPacket);

    // The datagram peer sends "ping" as its first packet: the orchestrator
    // learns the peer and locks the socket to it.
    let a = s.step(SessionEvent::FirstPacket { src: peer(), payload: b"ping".to_vec() });
    assert_eq!(a, SessionAction::ConnectUdp(peer()));
    assert_eq!(s.peer, PeerBinding::Bound(peer()));

    // The already-consumed first datagram is forwarded as a frame.
    let a = s.step(SessionEvent::UdpConnected);
    assert_eq!(
        a,
        SessionAction::WriteStream(vec![0x00, 0x04, b'p', b'i', b'n', b'g'])
    );
    assert_eq!(s.step(SessionEvent::StreamWriteOk), SessionAction::RunPumps);
    assert_eq!(s.state, SessionState::Pumping);

    // The stream peer replies with the frame of "pong": the receiving pump
    // hands it out as one datagram for the bound peer.
    let mut rx = TcpToUdpPump::new();
    let dgrams = rx.handle_stream_bytes(&[0x00, 0x04, b'p', b'o', b'n', b'g']);
    assert_eq!(dgrams, vec![b"pong".to_vec()]);

    // The remote side hangs up cleanly; the session ends and reports it.
    let end = rx.handle_stream_closed();
    assert_eq!(end, SessionError::TransportClosed);
    assert_eq!(s.step(SessionEvent::PumpsEnded(end)), SessionAction::Report(end));
    assert_eq!(s.state, SessionState::Done(SessionError::TransportClosed));
    assert!(end.is_clean());
}

#[test]
fn tcp_connect_failure_aborts() {
    let mut s = Session::new();
    let err = IoError { code: 111 };
    let a = s.step(SessionEvent::TcpConnectFailed(err));
    assert_eq!(a, SessionAction::Report(SessionError::ConnectFailure(err)));
    assert_eq!(s.state, SessionState::Done(SessionError::ConnectFailure(err)));
    assert!(!SessionError::ConnectFailure(err).is_clean());
}

#[test]
fn udp2tcp_error_reports_its_cause() {
    let cause = IoError { code: 110 };
    let e = Udp2TcpError::ConnectTcp(cause);
    assert_eq!(e.message(), "Failed to connect to TCP forward address");
    assert_eq!(e.source(), cause);
}

#[test]
fn option_failure_is_nonfatal() {
    let mut s = Session::new();
    s.step(SessionEvent::TcpConnected);
    let err = IoError { code: 95 };
    // Tuning failed, but the session goes on to bind the datagram side.
    let a = s.step(SessionEvent::OptionsFailed(err));
    assert_eq!(a, SessionAction::BindUdp);
    assert_eq!(s.option_warning, Some(err));
    assert_eq!(s.state, SessionState::BindingUdp);
}

#[test]
fn udp_bind_failure_aborts() {
    let mut s = Session::new();
    s.step(SessionEvent::TcpConnected);
    s.step(SessionEvent::OptionsApplied);
    let err = IoError { code: 98 };
    let a = s.step(SessionEvent::UdpBindFailed(err));
    assert_eq!(a, SessionAction::Report(SessionError::BindFailure(err)));
    assert_eq!(s.state, SessionState::Done(SessionError::BindFailure(err)));
}

#[test]
fn first_recv_failure_aborts() {
    let mut s = Session::new();
    s.step(SessionEvent::TcpConnected);
    s.step(SessionEvent::OptionsApplied);
    s.step(SessionEvent::UdpBound);
    let err = IoError { code: 104 };
    let a = s.step(SessionEvent::FirstRecvFailed(err));
    assert_eq!(a, SessionAction::Report(SessionError::TransportIoError(err)));
    assert_eq!(s.state, SessionState::Done(SessionError::TransportIoError(err)));
}

#[test]
fn oversized_first_packet_ends_session() {
    let mut s = Session::new();
    s.step(SessionEvent::TcpConnected);
    s.step(SessionEvent::OptionsApplied);
    s.step(SessionEvent::UdpBound);
    s.step(SessionEvent::FirstPacket { src: peer(), payload: vec![0u8; MAX_PAYLOAD_LEN + 1] });
    let a = s.step(SessionEvent::UdpConnected);
    assert_eq!(a, SessionAction::Report(SessionError::OversizedDatagram));
    assert_eq!(s.state, SessionState::Done(SessionError::OversizedDatagram));
}

#[test]
fn truncated_stream_ends_unclean() {
    // The stream peer claims ten bytes, sends three, and closes.
    let mut rx = TcpToUdpPump::new();
    let dgrams = rx.handle_stream_bytes(&[0x00, 0x0a, 1, 2, 3]);
    assert!(dgrams.is_empty());
    let end = rx.handle_stream_closed();
    assert_eq!(end, SessionError::TruncatedPayload);
    assert!(!end.is_clean());

    let mut s = Session::new();
    s.step(SessionEvent::TcpConnected);
    s.step(SessionEvent::OptionsApplied);
    s.step(SessionEvent::UdpBound);
    s.step(SessionEvent::FirstPacket { src: peer(), payload: b"hi".to_vec() });
    s.step(SessionEvent::UdpConnected);
    s.step(SessionEvent::StreamWriteOk);
    assert_eq!(s.step(SessionEvent::PumpsEnded(end)), SessionAction::Report(end));
    assert_eq!(s.state, SessionState::Done(SessionError::TruncatedPayload));
}

#[test]
fn sending_pump_frames_each_datagram() {
    let mut tx = UdpToTcpPump::new();
    let f = tx.handle_datagram(b"ping").unwrap();
    assert_eq!(f, vec![0x00, 0x04, b'p', b'i', b'n', b'g']);
    let f = tx.handle_datagram(&[]).unwrap();
    assert_eq!(f, vec![0x00, 0x00]);
}

#[test]
fn sending_pump_rejects_oversized() {
    let mut tx = UdpToTcpPump::new();
    let r = tx.handle_datagram(&vec![0u8; MAX_PAYLOAD_LEN + 1]);
    assert_eq!(r, Err(SessionError::OversizedDatagram));
}

#[test]
fn pumps_preserve_order_end_to_end() {
    // Everything one pump puts on the stream, the other hands back out as
    // the same discrete datagrams in the same order, however the bytes are
    // chunked in between.
    let payloads: Vec<Vec<u8>> = vec![b"one".to_vec(), Vec::new(), b"three".to_vec()];
    let mut tx = UdpToTcpPump::new();
    let mut wire = Vec::new();
    for p in &payloads {
        wire.extend_from_slice(&tx.handle_datagram(p).unwrap());
    }
    let mut rx = TcpToUdpPump::new();
    let mut out: Vec<Vec<u8>> = Vec::new();
    for b in &wire {
        out.extend(rx.handle_stream_bytes(&[*b]));
    }
    assert_eq!(out, payloads);
    assert_eq!(rx.handle_stream_closed(), SessionError::TransportClosed);
}

#[test]
fn peer_binding_guards_the_session() {
    let mut b = PeerBinding::new();
    assert!(!b.is_bound());
    assert_eq!(b.peer(), None);
    assert!(!b.accepts(peer()));
    b.bind(peer());
    assert!(b.is_bound());
    assert_eq!(b.peer(), Some(peer()));
    assert!(b.accepts(peer()));
    // A third party's packets are rejected once the peer is learned.
    assert!(!b.accepts(PeerAddr { ip: 0x7f000001, port: 9 }));
    assert!(!b.accepts(PeerAddr { ip: 0xc0000221, port: 4568 }));
}

#[test]
fn mismatched_events_are_refused() {
    let s = Session::new();
    assert!(s.expects(&SessionEvent::TcpConnected));
    assert!(s.expects(&SessionEvent::TcpConnectFailed(IoError { code: 1 })));
    assert!(!s.expects(&SessionEvent::UdpBound));
    assert!(!s.expects(&SessionEvent::PumpsEnded(SessionError::TransportClosed)));
}
