//! Connections, servers and datagram sockets.
use afterburner_wasi::daemon_dgram::{self, DaemonDgram, DgramBind, DgramEvent};
use afterburner_wasi::daemon_net::{
    accept_failed, bind_failed, decode_payload, io_error_code, keep_alive_idle, AddrInfo, DaemonNet,
    IoFailure, IoKind, ListenStep, NetEvent, SocketDriver, SocketInput, WriteCmd, E_BAD_HOST,
    E_BAD_ID, E_BAD_PAYLOAD, E_BAD_PORT, E_OTHER, E_PERMISSION, WRITE_HWM,
};
use afterburner_wasi::daemon_port_claims::SharedPortClaims;
use afterburner_wasi::manifold::Manifold;

fn addr(address: &str, port: u16) -> AddrInfo {
    AddrInfo { address: address.to_string(), ipv4: true, port }
}

#[test]
fn refused_connections_say_why() {
    let mut error = String::new();
    let mut sealed = DaemonNet::new(Manifold::sealed());
    assert_eq!(sealed.connect("example.com", 80, &mut error), Err(E_PERMISSION));
    assert_eq!(error, "net.connect: not granted by manifold (host example.com)");

    let mut net = DaemonNet::new(Manifold::open());
    assert_eq!(net.connect("", 80, &mut error), Err(E_BAD_HOST));
    assert_eq!(error, "net.connect: empty host");
    assert_eq!(net.connect("example.com", 0, &mut error), Err(E_BAD_PORT));
    assert_eq!(error, "net.connect: port must be > 0");
    assert!(!net.has_refs());
}

#[test]
fn connection_counts_what_is_pending() {
    let mut error = String::new();
    let mut net = DaemonNet::new(Manifold::open());
    assert_eq!(net.connect("example.com", 80, &mut error), Ok(1));
    assert!(net.has_refs());
    assert_eq!(net.pending_bytes(1), 0);
    match net.write(1, vec![1, 2, 3], &mut error) {
        Ok(WriteCmd::Bytes(b)) => assert_eq!(b, vec![1, 2, 3]),
        _ => panic!("the bytes go out"),
    }
    assert_eq!(net.pending_bytes(1), 3);
    match net.write_payload(1, "AQI=", &mut error) {
        Ok(WriteCmd::Bytes(b)) => assert_eq!(b, vec![1, 2]),
        _ => panic!("the bytes go out"),
    }
    assert_eq!(net.pending_bytes(1), 5);
    assert!(matches!(net.write_payload(1, "?", &mut error), Err(code) if code == E_BAD_PAYLOAD));
    assert!(error.starts_with("net: payload base64: "));
    assert_eq!(net.note_flushed(1, 2), Some((5, 3)));
    assert_eq!(net.note_flushed(1, 3), Some((3, 0)));
    assert_eq!(net.pending_bytes(1), 0);
    assert_eq!(net.note_flushed(9, 3), None);
}

#[test]
fn ended_connection_takes_no_more_bytes() {
    let mut error = String::new();
    let mut net = DaemonNet::new(Manifold::open());
    assert_eq!(net.connect("example.com", 80, &mut error), Ok(1));
    assert!(matches!(net.end(1, &mut error), Ok(Some(WriteCmd::End))));
    assert!(matches!(net.end(1, &mut error), Ok(None)));
    assert!(matches!(net.write(1, vec![1], &mut error), Err(code) if code == E_BAD_ID));
    assert_eq!(error, "net.write: conn 1 already half-closed");
    assert!(matches!(net.write(2, vec![1], &mut error), Err(code) if code == E_BAD_ID));
    assert_eq!(error, "net.write: unknown conn id 2");
    assert!(matches!(net.end(2, &mut error), Err(code) if code == E_BAD_ID));
    assert_eq!(error, "net.end: unknown conn id 2");
}

#[test]
fn forgotten_connection_is_gone() {
    let mut error = String::new();
    let mut net = DaemonNet::new(Manifold::open());
    assert_eq!(net.connect("example.com", 80, &mut error), Ok(1));
    assert_eq!(net.register_accepted(), 2);
    net.mark_closed(1);
    net.mark_closed(1);
    assert!(net.has_refs());
    assert!(net.destroy(1).is_none());
    match net.destroy(2) {
        Some(NetEvent::Close { conn_id, had_error }) => assert_eq!((conn_id, had_error), (2, false)),
        _ => panic!("the connection stands"),
    }
    net.mark_closed(2);
    assert!(!net.has_refs());
}

#[test]
fn options_go_to_known_connections_only() {
    let mut error = String::new();
    let mut net = DaemonNet::new(Manifold::open());
    assert_eq!(net.connect("example.com", 80, &mut error), Ok(1));
    assert!(matches!(net.set_no_delay(1, true), Ok(WriteCmd::SetNoDelay(true))));
    assert!(matches!(net.set_no_delay(5, true), Err(code) if code == E_BAD_ID));
    assert!(matches!(
        net.set_keep_alive(1, true, 250),
        Ok(WriteCmd::SetKeepAlive { enable: true, delay_ms: 250 })
    ));
    assert!(matches!(net.set_keep_alive(5, true, 250), Err(code) if code == E_BAD_ID));
    assert_eq!(keep_alive_idle(250), Some(250));
    assert_eq!(keep_alive_idle(0), None);
    assert_eq!(keep_alive_idle(-1), None);
}

#[test]
fn one_shard_binds_and_the_others_join() {
    let mut error = String::new();
    let mut claims = SharedPortClaims::new();
    let mut first = DaemonNet::new(Manifold::open());
    let mut second = DaemonNet::new(Manifold::open());
    match first.listen_with_claims(&mut claims, "0.0.0.0", 9000, &mut error) {
        ListenStep::Bind(id, address) => assert_eq!((id, address.as_str()), (1, "0.0.0.0:9000")),
        other => panic!("{other:?}"),
    }
    assert!(matches!(
        second.listen_with_claims(&mut claims, "0.0.0.0", 9000, &mut error),
        ListenStep::Joined(1)
    ));
    assert!(first.has_refs() && second.has_refs());
    assert!(first.close_server_with_claims(&mut claims, 1));
    assert!(!first.has_refs());
    assert_eq!(claims.owner(9000), None);
    assert!(!second.close_server_with_claims(&mut claims, 1));
    assert!(!second.has_refs());
}

#[test]
fn listening_needs_a_host() {
    let mut error = String::new();
    let mut net = DaemonNet::new(Manifold::sealed());
    assert!(matches!(net.listen("", 9000, &mut error), ListenStep::Failed(code) if code == E_BAD_HOST));
    assert_eq!(error, "net.listen: empty host");
    assert!(matches!(net.listen("127.0.0.1", 0, &mut error), ListenStep::Bind(1, _)));
    assert!(!net.close_server(4));
    assert!(net.has_refs());
    assert!(net.close_server(1));
    assert!(!net.has_refs());
}

#[test]
fn driver_announces_the_drain_on_the_way_down() {
    let mut driver = SocketDriver::new(4);
    let mut sent = |before: usize, left: usize| driver.step(SocketInput::Sent { before, left });
    assert!(sent(3 * WRITE_HWM, 2 * WRITE_HWM).0.is_empty());
    assert!(sent(2 * WRITE_HWM, WRITE_HWM).0.is_empty());
    let (events, over) = sent(WRITE_HWM, WRITE_HWM - 1);
    assert!(!over);
    assert!(matches!(events[..], [NetEvent::Drain { conn_id: 4 }]));
    assert!(sent(WRITE_HWM - 1, 0).0.is_empty());
}

#[test]
fn one_large_write_drains() {
    let mut error = String::new();
    let mut net = DaemonNet::new(Manifold::open());
    let id = net.connect("example.com", 80, &mut error).unwrap();
    assert!(net.write(id, vec![0u8; 102400], &mut error).is_ok());
    let (before, left) = net.note_flushed(id, 102400).unwrap();
    assert_eq!((before, left), (102400, 0));
    let mut driver = SocketDriver::new(id);
    let (events, over) = driver.step(SocketInput::Sent { before, left });
    assert!(!over);
    assert!(matches!(events[..], [NetEvent::Drain { conn_id: 1 }]));
    let (events, over) = driver.step(SocketInput::Received(vec![]));
    assert!(over);
    assert!(matches!(
        events[..],
        [NetEvent::End { conn_id: 1 }, NetEvent::Close { conn_id: 1, had_error: false }]
    ));
}

#[test]
fn closing_a_stranger_keeps_the_daemon_up() {
    let mut error = String::new();
    let mut claims = SharedPortClaims::new();
    let mut net = DaemonNet::new(Manifold::open());
    net.listen_with_claims(&mut claims, "0.0.0.0", 8080, &mut error);
    net.listen_with_claims(&mut claims, "0.0.0.0", 8080, &mut error);
    assert!(!net.close_server_with_claims(&mut claims, 77));
    assert!(!net.close_server_with_claims(&mut claims, 2));
    assert!(!net.close_server_with_claims(&mut claims, 2));
    assert!(net.has_refs());
    assert!(net.close_server_with_claims(&mut claims, 1));
    assert!(!net.close_server_with_claims(&mut claims, 1));
    assert!(!net.has_refs());
    assert_eq!(claims.owner(8080), None);
}

#[test]
fn driver_hands_on_what_comes_in() {
    let mut driver = SocketDriver::new(4);
    let (events, over) = driver.step(SocketInput::Connected {
        local: Some(addr("127.0.0.1", 1)),
        remote: None,
    });
    assert!(!over);
    assert!(matches!(events[..], [NetEvent::Connect { conn_id: 4, .. }]));
    let (events, over) = driver.step(SocketInput::Received(b"hello".to_vec()));
    assert!(!over);
    match &events[..] {
        [NetEvent::Data { conn_id: 4, payload_b64 }] => assert_eq!(payload_b64, "aGVsbG8="),
        other => panic!("{other:?}"),
    }
    let (events, over) = driver.step(SocketInput::Received(vec![]));
    assert!(over);
    assert!(matches!(
        events[..],
        [NetEvent::End { conn_id: 4 }, NetEvent::Close { conn_id: 4, had_error: false }]
    ));
}

#[test]
fn driver_closes_after_a_failure() {
    let failure = || IoFailure { message: "reset".into(), kind: IoKind::ConnectionReset };
    for input in [
        SocketInput::ConnectFailed(failure()),
        SocketInput::SendFailed(failure()),
        SocketInput::ReceiveFailed(failure()),
    ] {
        let (events, over) = SocketDriver::new(4).step(input);
        assert!(over);
        match &events[..] {
            [NetEvent::Error { conn_id: 4, message, code }, NetEvent::Close { conn_id: 4, had_error: true }] => {
                assert_eq!((message.as_str(), code.as_str()), ("reset", "ECONNRESET"))
            }
            other => panic!("{other:?}"),
        }
    }
}

#[test]
fn driver_survives_options_that_fail() {
    let failure = || IoFailure { message: "no".into(), kind: IoKind::Other };
    let (events, over) =
        SocketDriver::new(4).step(SocketInput::NoDelayFailed { enable: true, failure: failure() });
    assert!(!over);
    match &events[..] {
        [NetEvent::Error { message, code, .. }] => {
            assert_eq!((message.as_str(), code.as_str()), ("set_nodelay(true): no", ""))
        }
        other => panic!("{other:?}"),
    }
    let (events, over) = SocketDriver::new(4).step(SocketInput::KeepAliveFailed {
        enable: false,
        delay_ms: -5,
        failure: failure(),
    });
    assert!(!over);
    match &events[..] {
        [NetEvent::Error { message, .. }] => assert_eq!(message, "set_keepalive(false, -5): no"),
        other => panic!("{other:?}"),
    }
}

#[test]
fn failures_have_their_codes() {
    let known = [
        (IoKind::ConnectionRefused, "ECONNREFUSED"),
        (IoKind::ConnectionAborted, "ECONNABORTED"),
        (IoKind::ConnectionReset, "ECONNRESET"),
        (IoKind::TimedOut, "ETIMEDOUT"),
        (IoKind::AddrInUse, "EADDRINUSE"),
        (IoKind::AddrNotAvailable, "EADDRNOTAVAIL"),
        (IoKind::NotConnected, "ENOTCONN"),
        (IoKind::BrokenPipe, "EPIPE"),
        (IoKind::Interrupted, "EINTR"),
        (IoKind::WouldBlock, "EAGAIN"),
        (IoKind::UnexpectedEof, "EUNEXPECTEDEOF"),
        (IoKind::PermissionDenied, ""),
        (IoKind::Other, ""),
    ];
    for (kind, code) in known {
        assert_eq!(io_error_code(kind), code);
    }
    assert_eq!(daemon_dgram::io_error_code(IoKind::PermissionDenied), "EACCES");
    assert_eq!(daemon_dgram::io_error_code(IoKind::BrokenPipe), "EOTHER");
}

#[test]
fn server_failures_are_told() {
    match bind_failed(2, "127.0.0.1:80", "denied") {
        NetEvent::ServerError { server_id: 2, message } => {
            assert_eq!(message, "bind 127.0.0.1:80: denied")
        }
        other => panic!("{other:?}"),
    }
    match accept_failed(2, "too many files") {
        NetEvent::ServerError { server_id: 2, message } => {
            assert_eq!(message, "accept: too many files")
        }
        other => panic!("{other:?}"),
    }
}

#[test]
fn payloads_are_base64() {
    let mut error = String::new();
    assert_eq!(decode_payload("aGVsbG8=", &mut error), Some(b"hello".to_vec()));
    assert_eq!(error, "");
    assert_eq!(decode_payload("!", &mut error), None);
    assert!(error.starts_with("net: payload base64: "));
    assert!(error.len() > "net: payload base64: ".len());
}

#[test]
fn datagram_sockets_open_and_close() {
    let mut error = String::new();
    let mut dgram = DaemonDgram::new(Manifold::open());
    let (id, at) = dgram.bind("127.0.0.1", 0, &mut error).unwrap();
    assert_eq!((id, at.as_str()), (1, "127.0.0.1:0"));
    assert!(!dgram.has_refs());
    assert!(matches!(
        dgram.bound(id, "127.0.0.1".into(), 5353),
        DgramEvent::Listening { socket_id: 1, port: 5353 }
    ));
    assert!(dgram.has_refs());
    assert_eq!(dgram.address(1), Some(("127.0.0.1".to_string(), 5353)));
    assert_eq!(dgram.send(1, "10.0.0.1", 53, &mut error), Ok("10.0.0.1:53".to_string()));
    assert_eq!(dgram.bound_address(1, &mut error), Ok(("127.0.0.1".to_string(), 5353)));
    assert_eq!(dgram.bound_address(9, &mut error), Err(E_BAD_ID));
    assert_eq!(error, "dgram.address: unknown id 9");
    assert!(matches!(dgram.close(1), Some(DgramEvent::Close { socket_id: 1 })));
    assert!(dgram.close(1).is_none());
    assert_eq!(dgram.address(1), None);
    assert!(!dgram.has_refs());
}

#[test]
fn refused_datagrams_say_why() {
    let mut error = String::new();
    let mut sealed = DaemonDgram::new(Manifold::sealed());
    assert_eq!(sealed.bind("127.0.0.1", 0, &mut error), Err(E_PERMISSION));
    assert_eq!(error, "dgram.bind: not granted by manifold");
    assert_eq!(sealed.send(1, "127.0.0.1", 1, &mut error), Err(E_PERMISSION));
    assert_eq!(error, "dgram.send: not granted by manifold");

    let mut dgram = DaemonDgram::new(Manifold::open());
    assert_eq!(dgram.bind("", 0, &mut error), Err(E_BAD_HOST));
    assert_eq!(error, "dgram.bind: empty host");
    assert_eq!(dgram.send(8, "127.0.0.1", 1, &mut error), Err(E_BAD_ID));
    assert_eq!(error, "dgram.send: unknown socket id 8");
    let (id, _) = dgram.bind("127.0.0.1", 0, &mut error).unwrap();
    dgram.bound(id, "127.0.0.1".into(), 1);
    assert_eq!(dgram.send(id, "", 1, &mut error), Err(E_BAD_HOST));
    assert_eq!(error, "dgram.send: empty host");
    assert_eq!(dgram.send(id, "127.0.0.1", 0, &mut error), Err(E_BAD_PORT));
    assert_eq!(error, "dgram.send: port must be > 0");
}

#[test]
fn datagram_failures_are_told() {
    let mut error = String::new();
    assert_eq!(daemon_dgram::bind_failed("::1", 7, "denied", &mut error), E_OTHER);
    assert_eq!(error, "dgram.bind(::1:7): denied");
    assert_eq!(daemon_dgram::send_failed("::1", 7, "gone", &mut error), E_OTHER);
    assert_eq!(error, "dgram.send(::1:7): gone");
    match daemon_dgram::receive_failed(3, "gone", IoKind::WouldBlock) {
        DgramEvent::Error { socket_id: 3, message, code } => {
            assert_eq!((message.as_str(), code.as_str()), ("dgram.recv: gone", "EAGAIN"))
        }
        other => panic!("{other:?}"),
    }
    match daemon_dgram::received(3, addr("10.0.0.1", 53), &[0xff, 0x00]) {
        DgramEvent::Message { socket_id: 3, from, payload_b64 } => {
            assert_eq!((from.address.as_str(), payload_b64.as_str()), ("10.0.0.1", "/wA="))
        }
        other => panic!("{other:?}"),
    }
}

#[test]
fn socket_without_an_address_is_told() {
    let mut error = String::new();
    assert_eq!(daemon_dgram::local_address_failed("gone", &mut error), E_OTHER);
    assert_eq!(error, "dgram.bind: local_addr: gone");
}

#[test]
fn one_shard_binds_a_datagram_port() {
    let mut error = String::new();
    let mut claims = SharedPortClaims::new();
    let mut first = DaemonDgram::new(Manifold::open());
    let mut second = DaemonDgram::new(Manifold::open());
    match first.bind_with_claims(&mut claims, "0.0.0.0", 53, &mut error) {
        DgramBind::Bind(1, at) => assert_eq!(at, "0.0.0.0:53"),
        other => panic!("{other:?}"),
    }
    first.bound(1, "0.0.0.0".into(), 53);
    match second.bind_with_claims(&mut claims, "0.0.0.0", 53, &mut error) {
        DgramBind::Joined(1, DgramEvent::Listening { socket_id: 1, port: 53 }) => {}
        other => panic!("{other:?}"),
    }
    assert!(second.has_refs());
    assert_eq!(second.address(1), None);
    let any = second.bind_with_claims(&mut claims, "0.0.0.0", 0, &mut error);
    assert!(matches!(any, DgramBind::Bind(2, _)));
    assert!(second.close_with_claims(&mut claims, 1).is_some());
    assert!(!second.has_refs());
    assert!(claims.owner(53).is_some());
    assert!(first.close_with_claims(&mut claims, 1).is_some());
    assert!(first.close_with_claims(&mut claims, 1).is_none());
    assert_eq!(claims.owner(53), None);
    let again = second.bind_with_claims(&mut claims, "0.0.0.0", 53, &mut error);
    assert!(matches!(again, DgramBind::Bind(3, _)));
    second.give_up_port(&mut claims, 3);
    assert_eq!(claims.owner(53), None);
    let mut sealed = DaemonDgram::new(Manifold::sealed());
    let refused = sealed.bind_with_claims(&mut claims, "0.0.0.0", 53, &mut error);
    assert!(matches!(refused, DgramBind::Failed(code) if code == E_PERMISSION));
    assert_eq!(claims.owner(53), None);
}
