use quic_shim::conn::ConnState;
use quic_shim::conn::PumpCmd;
use quic_shim::conn::PumpEvent;
use quic_shim::errors::ShimError;
use quic_shim::tunnel::BindStep;
use quic_shim::tunnel::RecvReady;
use quic_shim::tunnel::RecvStep;
use quic_shim::tunnel::SendReady;
use quic_shim::tunnel::SendtoStep;
use quic_shim::tunnel::StreamRecvOutcome;
use quic_shim::tunnel::StreamSendOutcome;
use quic_shim::tunnel::Tunnel;

fn sockaddr_in_bytes(ip: [u8; 4], port: u16) -> Vec<u8> {
    let mut b = vec![0u8; 16];
    b[0] = 2;
    b[2] = (port >> 8) as u8;
    b[3] = (port & 0xff) as u8;
    b[4] = ip[0];
    b[5] = ip[1];
    b[6] = ip[2];
    b[7] = ip[3];
    b
}

/// A tunnel with one bound datagram socket and a provisioned transport.
fn ready_tunnel() -> (Tunnel, i32) {
    let mut t = Tunnel::new();
    let fd = t.socket(2, 2, 0);
    assert!(fd >= 1);
    let local = sockaddr_in_bytes([0, 0, 0, 0], 0);
    assert_eq!(t.bind(fd, &local, 16), BindStep::NeedTransport);
    t.transport_provisioned();
    (t, fd)
}

/// Drives the connection as a shim would when the engine has one packet
/// to flush and nothing arrives.
fn quiet_drive(t: &mut Tunnel, key: u64) {
    let mut cmd = t.pump_start(key);
    let mut steps = 0;
    while cmd != PumpCmd::Stop {
        let ev = match cmd {
            PumpCmd::FlushOut => {
                if steps == 0 {
                    PumpEvent::PacketOut
                } else {
                    PumpEvent::EngineDone
                }
            }
            PumpCmd::Poll => PumpEvent::NothingIn,
            PumpCmd::Stop => unreachable!(),
        };
        cmd = t.pump_step(key, ev);
        steps += 1;
        assert!(steps <= 40, "drive loop must be bounded");
    }
}

#[test]
fn socket_accepts_only_datagram_requests() {
    let mut t = Tunnel::new();
    assert_eq!(t.socket(2, 1, 0), -1); // SOCK_STREAM
    assert_eq!(t.socket(10, 2, 0), -1); // AF_INET6
    assert_eq!(t.socket(2, 2, 6), -1); // IPPROTO_TCP
    assert_eq!(t.table.sockets.len(), 0);
    let fd = t.socket(2, 2, 17);
    assert_eq!(fd, 1);
    let fd2 = t.socket(2, 2 | 0x80000, 0); // close-on-exec flag bit ignored
    assert_eq!(fd2, 2);
    assert_ne!(fd, fd2);
}

#[test]
fn bind_malformed_address_leaves_state_unchanged() {
    let mut t = Tunnel::new();
    let fd = t.socket(2, 2, 0);
    let good = sockaddr_in_bytes([0, 0, 0, 0], 0);
    // Wrong stated length: rejected, and no transport is provisioned.
    assert_eq!(
        t.bind(fd, &good, 12),
        BindStep::Rejected(ShimError::AddressParse)
    );
    assert!(!t.transport_ready);
    assert_eq!(t.table.sockets[0].local, None);
    assert_eq!(t.registry.entries.len(), 0);
    // An IPv6 family is rejected the same way.
    let mut bad = good.clone();
    bad[0] = 10;
    assert_eq!(
        t.bind(fd, &bad, 16),
        BindStep::Rejected(ShimError::AddressParse)
    );
    assert!(!t.transport_ready);
}

#[test]
fn bind_unknown_descriptor_rejected() {
    let mut t = Tunnel::new();
    let addr = sockaddr_in_bytes([0, 0, 0, 0], 0);
    assert_eq!(
        t.bind(77, &addr, 16),
        BindStep::Rejected(ShimError::BadDescriptor)
    );
}

#[test]
fn sendto_without_transport_rejected() {
    let mut t = Tunnel::new();
    let fd = t.socket(2, 2, 0);
    let dest = sockaddr_in_bytes([1, 2, 3, 4], 9000);
    assert_eq!(
        t.sendto(fd, &dest, 16),
        SendtoStep::Rejected(ShimError::TransportUnavailable)
    );
    assert_eq!(t.registry.entries.len(), 0);
}

#[test]
fn sendto_malformed_address_rejected() {
    let (mut t, fd) = ready_tunnel();
    let dest = sockaddr_in_bytes([1, 2, 3, 4], 9000);
    assert_eq!(
        t.sendto(fd, &dest, 15),
        SendtoStep::Rejected(ShimError::AddressParse)
    );
    assert_eq!(t.registry.entries.len(), 0);
}

#[test]
fn ping_scenario_send_and_echo() {
    // socket() -> bind("0.0.0.0:0") -> sendto(b"ping", 1.2.3.4:9000),
    // with the engine's part played by hand: the handshake completes,
    // the engine accepts all four bytes, and the peer's echo is handed
    // back through the tunnel verbatim.
    let (mut t, fd) = ready_tunnel();
    let dest = sockaddr_in_bytes([1, 2, 3, 4], 9000);
    let step = t.sendto(fd, &dest, 16);
    let key = match step {
        SendtoStep::Drive { key, created, .. } => {
            assert!(created, "first send to a peer files a handshake");
            key
        }
        other => panic!("expected a drive, got {:?}", other),
    };
    assert_eq!(t.registry.entries.len(), 1);
    assert_eq!(t.registry.entries[0].state, ConnState::Handshaking);

    // While the handshake is in flight the caller would block.
    quiet_drive(&mut t, key);
    assert_eq!(
        t.sendto_complete(fd),
        SendReady::Rejected(ShimError::WouldBlock)
    );

    // The engine reports completion; four bytes go out on stream 0.
    t.on_established(key);
    assert_eq!(t.registry.entries[0].state, ConnState::Established);
    assert_eq!(t.sendto_complete(fd), SendReady::Stream(0));
    let out = t.sendto_finish(fd, StreamSendOutcome::Accepted(4), 4);
    assert_eq!(out.ret, 4);
    assert_eq!(out.errno, 0);

    // The peer echoes: the bytes come back exactly as delivered.
    assert!(matches!(t.recvfrom(fd), RecvStep::Drive { .. }));
    assert_eq!(t.recvfrom_complete(fd), RecvReady::Stream(0));
    let (res, bytes) = t.recvfrom_finish(
        fd,
        StreamRecvOutcome::Data { fin: false },
        b"ping".to_vec(),
        1024,
    );
    assert_eq!(res.ret, 4);
    assert_eq!(res.errno, 0);
    assert_eq!(bytes, b"ping".to_vec());
}

#[test]
fn one_connection_per_peer_across_many_sends() {
    let (mut t, fd) = ready_tunnel();
    let dest = sockaddr_in_bytes([1, 2, 3, 4], 9000);
    let mut first_conn = None;
    for n in 0..8 {
        match t.sendto(fd, &dest, 16) {
            SendtoStep::Drive { created, conn, .. } => {
                if n == 0 {
                    assert!(created);
                    first_conn = Some(conn);
                } else {
                    assert!(!created, "no second handshake for the same peer");
                    assert_eq!(Some(conn), first_conn);
                }
            }
            other => panic!("expected a drive, got {:?}", other),
        }
        assert_eq!(t.registry.entries.len(), 1);
    }
}

#[test]
fn get_or_create_is_idempotent() {
    let (mut t, fd) = ready_tunnel();
    let dest = sockaddr_in_bytes([9, 9, 9, 9], 443);
    let c1 = match t.sendto(fd, &dest, 16) {
        SendtoStep::Drive { conn, .. } => conn,
        other => panic!("expected a drive, got {:?}", other),
    };
    let entries_before = t.registry.entries.clone();
    let c2 = match t.sendto(fd, &dest, 16) {
        SendtoStep::Drive { conn, created, .. } => {
            assert!(!created);
            conn
        }
        other => panic!("expected a drive, got {:?}", other),
    };
    assert_eq!(c1, c2);
    assert_eq!(t.registry.entries, entries_before);
}

#[test]
fn recvfrom_while_handshaking_would_block() {
    let (mut t, fd) = ready_tunnel();
    let dest = sockaddr_in_bytes([5, 6, 7, 8], 4433);
    let key = match t.sendto(fd, &dest, 16) {
        SendtoStep::Drive { key, .. } => key,
        other => panic!("expected a drive, got {:?}", other),
    };
    assert_eq!(t.registry.entries[0].state, ConnState::Handshaking);
    // The drive may run (it is what moves the handshake), but the caller
    // gets would-block, never bytes.
    assert!(matches!(t.recvfrom(fd), RecvStep::Drive { .. }));
    quiet_drive(&mut t, key);
    assert_eq!(
        t.recvfrom_complete(fd),
        RecvReady::Rejected(ShimError::WouldBlock)
    );
    // And an engine with nothing pending yields would-block too.
    let (res, _) = t.recvfrom_finish(fd, StreamRecvOutcome::Empty, Vec::new(), 1024);
    assert_eq!(res.ret, -1);
    assert_eq!(res.errno, 11);
}

#[test]
fn recvfrom_with_no_peer_would_block() {
    let (t, fd) = ready_tunnel();
    assert_eq!(t.recvfrom(fd), RecvStep::Rejected(ShimError::WouldBlock));
}

#[test]
fn distinct_peers_get_independent_connections() {
    let mut t = Tunnel::new();
    let mut fds = Vec::new();
    for _ in 0..3 {
        fds.push(t.socket(2, 2, 0));
    }
    let local = sockaddr_in_bytes([0, 0, 0, 0], 0);
    assert_eq!(t.bind(fds[0], &local, 16), BindStep::NeedTransport);
    t.transport_provisioned();
    let peers = [
        sockaddr_in_bytes([10, 0, 0, 1], 1000),
        sockaddr_in_bytes([10, 0, 0, 2], 1000),
        sockaddr_in_bytes([10, 0, 0, 1], 1001),
    ];
    let mut conns = Vec::new();
    for (fd, dest) in fds.iter().zip(peers.iter()) {
        match t.sendto(*fd, dest, 16) {
            SendtoStep::Drive { created, conn, key, .. } => {
                assert!(created, "a new peer files its own handshake");
                t.on_established(key);
                conns.push(conn);
            }
            other => panic!("expected a drive, got {:?}", other),
        }
    }
    assert_eq!(t.registry.entries.len(), 3);
    assert_ne!(conns[0], conns[1]);
    assert_ne!(conns[0], conns[2]);
    assert_ne!(conns[1], conns[2]);
    // Each socket gets its own stream on its own connection; a fresh
    // connection starts its stream identifiers at zero.
    for fd in &fds {
        assert_eq!(t.sendto_complete(*fd), SendReady::Stream(0));
    }
}

#[test]
fn two_sockets_same_peer_share_connection_distinct_streams() {
    let mut t = Tunnel::new();
    let fd1 = t.socket(2, 2, 0);
    let fd2 = t.socket(2, 2, 0);
    let local = sockaddr_in_bytes([0, 0, 0, 0], 0);
    assert_eq!(t.bind(fd1, &local, 16), BindStep::NeedTransport);
    t.transport_provisioned();
    let dest = sockaddr_in_bytes([1, 1, 1, 1], 7777);
    let (key, c1) = match t.sendto(fd1, &dest, 16) {
        SendtoStep::Drive { key, conn, .. } => (key, conn),
        other => panic!("expected a drive, got {:?}", other),
    };
    let c2 = match t.sendto(fd2, &dest, 16) {
        SendtoStep::Drive { conn, created, .. } => {
            assert!(!created);
            conn
        }
        other => panic!("expected a drive, got {:?}", other),
    };
    assert_eq!(c1, c2);
    assert_eq!(t.registry.entries.len(), 1);
    t.on_established(key);
    assert_eq!(t.sendto_complete(fd1), SendReady::Stream(0));
    assert_eq!(t.sendto_complete(fd2), SendReady::Stream(4));
    // The assignments are sticky.
    assert_eq!(t.sendto_complete(fd1), SendReady::Stream(0));
}

#[test]
fn failed_connection_is_replaced_not_reused() {
    let (mut t, fd) = ready_tunnel();
    let dest = sockaddr_in_bytes([8, 8, 8, 8], 53);
    let key = match t.sendto(fd, &dest, 16) {
        SendtoStep::Drive { key, .. } => key,
        other => panic!("expected a drive, got {:?}", other),
    };
    t.connect_failed(key);
    assert_eq!(t.registry.entries[0].state, ConnState::Failed);
    // The next send to the same peer files a fresh handshake in place.
    match t.sendto(fd, &dest, 16) {
        SendtoStep::Drive { created, conn, .. } => {
            assert!(created, "a failed connection is never reused");
            assert_eq!(conn, 0);
        }
        other => panic!("expected a drive, got {:?}", other),
    }
    assert_eq!(t.registry.entries.len(), 1);
    assert_eq!(t.registry.entries[0].state, ConnState::Handshaking);
    // Sends meanwhile report the failure of the dead connection.
    t.connect_failed(key);
    assert_eq!(
        t.sendto_complete(fd),
        SendReady::Rejected(ShimError::HandshakeFailure)
    );
}

#[test]
fn engine_failure_during_drive_is_terminal() {
    let (mut t, fd) = ready_tunnel();
    let dest = sockaddr_in_bytes([4, 4, 4, 4], 4444);
    let key = match t.sendto(fd, &dest, 16) {
        SendtoStep::Drive { key, .. } => key,
        other => panic!("expected a drive, got {:?}", other),
    };
    let cmd = t.pump_start(key);
    assert_eq!(cmd, PumpCmd::FlushOut);
    assert_eq!(t.pump_step(key, PumpEvent::EngineFailed), PumpCmd::Stop);
    assert_eq!(t.registry.entries[0].state, ConnState::Failed);
}

#[test]
fn drive_loop_is_bounded_under_endless_output() {
    let (mut t, fd) = ready_tunnel();
    let dest = sockaddr_in_bytes([3, 3, 3, 3], 3333);
    let key = match t.sendto(fd, &dest, 16) {
        SendtoStep::Drive { key, .. } => key,
        other => panic!("expected a drive, got {:?}", other),
    };
    // An engine that always has another packet must still be cut off.
    let mut cmd = t.pump_start(key);
    let mut steps = 0;
    while cmd == PumpCmd::FlushOut {
        cmd = t.pump_step(key, PumpEvent::PacketOut);
        steps += 1;
        assert!(steps <= 40, "drive loop must be bounded");
    }
    assert_eq!(cmd, PumpCmd::Stop);
}

#[test]
fn send_outcomes_translate_to_posix_results() {
    let (mut t, fd) = ready_tunnel();
    let dest = sockaddr_in_bytes([2, 2, 2, 2], 2222);
    let key = match t.sendto(fd, &dest, 16) {
        SendtoStep::Drive { key, .. } => key,
        other => panic!("expected a drive, got {:?}", other),
    };
    t.on_established(key);
    assert_eq!(t.sendto_complete(fd), SendReady::Stream(0));
    // Partial acceptance is reported as a partial write.
    let out = t.sendto_finish(fd, StreamSendOutcome::Accepted(2), 4);
    assert_eq!((out.ret, out.errno), (2, 0));
    // No capacity is would-block, and the connection stays alive.
    let out = t.sendto_finish(fd, StreamSendOutcome::Blocked, 4);
    assert_eq!((out.ret, out.errno), (-1, 11));
    assert_eq!(t.registry.entries[0].state, ConnState::Established);
    // A refused stream is an error, but not terminal for the connection.
    let out = t.sendto_finish(fd, StreamSendOutcome::Stopped, 4);
    assert_eq!((out.ret, out.errno), (-1, 71));
    assert_eq!(t.registry.entries[0].state, ConnState::Established);
    // A fatal engine error kills the connection.
    let out = t.sendto_finish(fd, StreamSendOutcome::Fatal, 4);
    assert_eq!((out.ret, out.errno), (-1, 71));
    assert_eq!(t.registry.entries[0].state, ConnState::Failed);
}

#[test]
fn peer_close_yields_zero_after_last_bytes() {
    let (mut t, fd) = ready_tunnel();
    let dest = sockaddr_in_bytes([6, 6, 6, 6], 6666);
    let key = match t.sendto(fd, &dest, 16) {
        SendtoStep::Drive { key, .. } => key,
        other => panic!("expected a drive, got {:?}", other),
    };
    t.on_established(key);
    assert_eq!(t.sendto_complete(fd), SendReady::Stream(0));
    // The peer's last bytes arrive with its finish.
    let (res, bytes) = t.recvfrom_finish(
        fd,
        StreamRecvOutcome::Data { fin: true },
        b"bye".to_vec(),
        64,
    );
    assert_eq!((res.ret, res.errno), (3, 0));
    assert_eq!(bytes, b"bye".to_vec());
    assert_eq!(t.registry.entries[0].state, ConnState::Closing);
    // After that, the clean close is reported as zero.
    assert_eq!(t.recvfrom_complete(fd), RecvReady::PeerClosed);
    // Once the engine reports the close as complete, the connection is
    // closed for good.
    t.on_drained(key);
    assert_eq!(t.registry.entries[0].state, ConnState::Closed);
    t.on_drained(key);
    assert_eq!(t.registry.entries[0].state, ConnState::Closed);
}

#[test]
fn sendto_to_new_peer_repoints_socket() {
    let (mut t, fd) = ready_tunnel();
    let dest1 = sockaddr_in_bytes([1, 0, 0, 1], 1111);
    let dest2 = sockaddr_in_bytes([1, 0, 0, 2], 2222);
    let key1 = match t.sendto(fd, &dest1, 16) {
        SendtoStep::Drive { key, .. } => key,
        other => panic!("expected a drive, got {:?}", other),
    };
    t.on_established(key1);
    assert_eq!(t.sendto_complete(fd), SendReady::Stream(0));
    // A datagram socket may change destinations: a second peer gets its
    // own connection, and the socket a fresh stream on it.
    let key2 = match t.sendto(fd, &dest2, 16) {
        SendtoStep::Drive { key, created, .. } => {
            assert!(created);
            key
        }
        other => panic!("expected a drive, got {:?}", other),
    };
    assert_ne!(key1, key2);
    assert_eq!(t.registry.entries.len(), 2);
    t.on_established(key2);
    assert_eq!(t.sendto_complete(fd), SendReady::Stream(0));
}
