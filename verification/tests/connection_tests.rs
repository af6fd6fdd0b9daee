use uintr::connection::{
    encode_fd_control, recv_fd_result, send_fd_result, ClientHandshake, ClientPhase,
    HandshakeAction, HandshakeEvent, ServerHandshake, ServerPhase, CONNECT_ATTEMPTS,
    FD_CMSG_SPACE, RETRY_DELAY_MS,
};
use uintr::syscall::OsError;
use uintr::UintrError;

fn os_error() -> OsError {
    OsError { interrupted: false, description: "Broken pipe (os error 32)".to_string() }
}

#[test]
fn control_message_layout() {
    let c = encode_fd_control(7);
    assert_eq!(c.len(), FD_CMSG_SPACE);
    assert_eq!(
        c,
        vec![20, 0, 0, 0, 0, 0, 0, 0, 1, 0, 0, 0, 1, 0, 0, 0, 7, 0, 0, 0, 0, 0, 0, 0]
    );
}

#[test]
fn control_message_matches_libc_layout() {
    let c = encode_fd_control(0x0102_0304);
    assert_eq!(&c[16..20], &[4, 3, 2, 1]);
    assert_eq!(c[8..12], libc::SOL_SOCKET.to_le_bytes());
    assert_eq!(c[12..16], libc::SCM_RIGHTS.to_le_bytes());
    assert_eq!(c[0..8], 20u64.to_le_bytes());
    assert_eq!(std::mem::size_of::<libc::cmsghdr>(), 16);
}

#[test]
fn control_message_round_trip() {
    for fd in [0, 3, 255, 256, 65_537, i32::MAX, -1, i32::MIN] {
        let c = encode_fd_control(fd);
        assert_eq!(recv_fd_result(1, &os_error(), &c, c.len()), Ok(fd));
    }
}

#[test]
fn receive_failures() {
    let c = encode_fd_control(9);
    assert_eq!(
        recv_fd_result(-1, &os_error(), &c, c.len()),
        Err(UintrError::RecvFdError("recv_fd failed: Broken pipe (os error 32)".to_string()))
    );
    let none = Err(UintrError::RecvFdError("recv_fd: no file descriptor received".to_string()));
    // No control data came back.
    assert_eq!(recv_fd_result(1, &os_error(), &vec![0u8; 24], 0), none);
    // Less than a header.
    assert_eq!(recv_fd_result(1, &os_error(), &c, 15), none);
    // Wrong level.
    let mut wrong_level = c.clone();
    wrong_level[8] = 2;
    assert_eq!(recv_fd_result(1, &os_error(), &wrong_level, 24), none);
    // Wrong type.
    let mut wrong_type = c.clone();
    wrong_type[12] = 2;
    assert_eq!(recv_fd_result(1, &os_error(), &wrong_type, 24), none);
    // A bare header is enough to read the descriptor after it.
    assert_eq!(recv_fd_result(1, &os_error(), &c, 16), Ok(9));
}

#[test]
fn send_outcomes() {
    assert_eq!(send_fd_result(1, &os_error()), Ok(()));
    assert_eq!(
        send_fd_result(-1, &os_error()),
        Err(UintrError::SendFdError("send_fd failed: Broken pipe (os error 32)".to_string()))
    );
}

fn finish(a: HandshakeAction) -> Result<i32, UintrError> {
    match a {
        HandshakeAction::Finish { result } => result,
        _ => panic!("not finished"),
    }
}

#[test]
fn server_exchanges_descriptors() {
    let mut h = ServerHandshake::new(11);
    assert!(matches!(h.start(), HandshakeAction::Bind));
    assert!(matches!(h.step(HandshakeEvent::Bound { result: Ok(()) }), HandshakeAction::SetNonblocking));
    assert!(matches!(
        h.step(HandshakeEvent::NonblockingSet { result: Ok(()) }),
        HandshakeAction::Attempt { attempt: 0 }
    ));
    assert!(matches!(
        h.step(HandshakeEvent::Attempted { succeeded: false }),
        HandshakeAction::Sleep { millis: RETRY_DELAY_MS, report: true }
    ));
    assert!(matches!(h.step(HandshakeEvent::Slept), HandshakeAction::Attempt { attempt: 1 }));
    assert!(matches!(
        h.step(HandshakeEvent::Attempted { succeeded: false }),
        HandshakeAction::Sleep { millis: 50, report: false }
    ));
    assert!(matches!(h.step(HandshakeEvent::Slept), HandshakeAction::Attempt { attempt: 2 }));
    assert!(matches!(h.step(HandshakeEvent::Attempted { succeeded: true }), HandshakeAction::ReceiveFd));
    assert!(h.connected);
    assert!(matches!(
        h.step(HandshakeEvent::FdReceived { result: Ok(22) }),
        HandshakeAction::SendFd { fd: 11 }
    ));
    assert_eq!(h.client_fd, Some(22));
    assert_eq!(finish(h.step(HandshakeEvent::FdSent { result: Ok(()) })), Ok(22));
    assert!(h.phase == ServerPhase::Finished);
}

#[test]
fn server_reports_bind_and_nonblocking_failures() {
    let mut h = ServerHandshake::new(1);
    h.start();
    assert_eq!(
        finish(h.step(HandshakeEvent::Bound { result: Err("Address in use".to_string()) })),
        Err(UintrError::SocketError("Failed to bind socket: Address in use".to_string()))
    );
    h.start();
    h.step(HandshakeEvent::Bound { result: Ok(()) });
    assert_eq!(
        finish(h.step(HandshakeEvent::NonblockingSet { result: Err("bad".to_string()) })),
        Err(UintrError::SocketError("Failed to set nonblocking: bad".to_string()))
    );
}

#[test]
fn server_times_out_after_all_attempts() {
    let mut h = ServerHandshake::new(1);
    h.start();
    h.step(HandshakeEvent::Bound { result: Ok(()) });
    h.step(HandshakeEvent::NonblockingSet { result: Ok(()) });
    let mut attempts = 1;
    let mut reports = 0;
    loop {
        match h.step(HandshakeEvent::Attempted { succeeded: false }) {
            HandshakeAction::Sleep { report, .. } => {
                if report {
                    reports += 1;
                }
            }
            _ => panic!("expected a pause"),
        }
        match h.step(HandshakeEvent::Slept) {
            HandshakeAction::Attempt { attempt } => {
                assert_eq!(attempt, attempts);
                attempts += 1;
            }
            a => {
                assert_eq!(finish(a), Err(UintrError::Timeout));
                break;
            }
        }
    }
    assert_eq!(attempts, CONNECT_ATTEMPTS);
    assert_eq!(reports, 10);
}

#[test]
fn server_passes_on_descriptor_errors() {
    let mut h = ServerHandshake::new(1);
    h.start();
    h.step(HandshakeEvent::Bound { result: Ok(()) });
    h.step(HandshakeEvent::NonblockingSet { result: Ok(()) });
    h.step(HandshakeEvent::Attempted { succeeded: true });
    let e = UintrError::RecvFdError("recv_fd: no file descriptor received".to_string());
    assert_eq!(finish(h.step(HandshakeEvent::FdReceived { result: Err(e.clone()) })), Err(e));
    assert_eq!(h.client_fd, None);

    let mut h = ServerHandshake::new(1);
    h.start();
    h.step(HandshakeEvent::Bound { result: Ok(()) });
    h.step(HandshakeEvent::NonblockingSet { result: Ok(()) });
    h.step(HandshakeEvent::Attempted { succeeded: true });
    h.step(HandshakeEvent::FdReceived { result: Ok(4) });
    let e = UintrError::SendFdError("send_fd failed: x".to_string());
    assert_eq!(finish(h.step(HandshakeEvent::FdSent { result: Err(e.clone()) })), Err(e));
}

#[test]
fn client_exchanges_descriptors() {
    let mut h = ClientHandshake::new(5);
    assert!(matches!(h.start(), HandshakeAction::Attempt { attempt: 0 }));
    assert!(matches!(
        h.step(HandshakeEvent::Attempted { succeeded: false }),
        HandshakeAction::Sleep { millis: 50, report: true }
    ));
    assert!(matches!(h.step(HandshakeEvent::Slept), HandshakeAction::Attempt { attempt: 1 }));
    assert!(matches!(
        h.step(HandshakeEvent::Attempted { succeeded: true }),
        HandshakeAction::SendFd { fd: 5 }
    ));
    assert!(matches!(h.step(HandshakeEvent::FdSent { result: Ok(()) }), HandshakeAction::ReceiveFd));
    assert_eq!(finish(h.step(HandshakeEvent::FdReceived { result: Ok(8) })), Ok(8));
    assert_eq!(h.server_fd, Some(8));
    assert!(h.phase == ClientPhase::Finished);
}

#[test]
fn client_times_out_and_passes_on_errors() {
    let mut h = ClientHandshake::new(5);
    h.start();
    let mut last = None;
    for _ in 0..CONNECT_ATTEMPTS {
        h.step(HandshakeEvent::Attempted { succeeded: false });
        last = Some(h.step(HandshakeEvent::Slept));
    }
    assert_eq!(finish(last.unwrap()), Err(UintrError::Timeout));

    let mut h = ClientHandshake::new(5);
    h.start();
    h.step(HandshakeEvent::Attempted { succeeded: true });
    let e = UintrError::SendFdError("send_fd failed: y".to_string());
    assert_eq!(finish(h.step(HandshakeEvent::FdSent { result: Err(e.clone()) })), Err(e));
    assert_eq!(h.server_fd, None);
}

#[test]
fn an_earlier_connection_survives_failed_attempts() {
    // A socket accepted in an earlier run is used when every attempt fails.
    let mut h = ClientHandshake::new(5);
    h.connected = true;
    h.start();
    let mut last = None;
    for _ in 0..CONNECT_ATTEMPTS {
        h.step(HandshakeEvent::Attempted { succeeded: false });
        last = Some(h.step(HandshakeEvent::Slept));
    }
    assert!(matches!(last.unwrap(), HandshakeAction::SendFd { fd: 5 }));
}

#[test]
fn server_and_client_exchange_through_a_channel() {
    // Drive both handshakes against an in-memory channel: each side's sent
    // descriptor reaches the other side's next receive.
    let mut server = ServerHandshake::new(40);
    let mut client = ClientHandshake::new(50);
    assert!(matches!(server.start(), HandshakeAction::Bind));
    let mut s_action = server.step(HandshakeEvent::Bound { result: Ok(()) });
    assert!(matches!(s_action, HandshakeAction::SetNonblocking));
    s_action = server.step(HandshakeEvent::NonblockingSet { result: Ok(()) });
    let mut c_action = client.start();
    assert!(matches!(s_action, HandshakeAction::Attempt { .. }));
    assert!(matches!(c_action, HandshakeAction::Attempt { .. }));
    s_action = server.step(HandshakeEvent::Attempted { succeeded: true });
    c_action = client.step(HandshakeEvent::Attempted { succeeded: true });
    let mut to_server: Vec<i32> = Vec::new();
    let mut to_client: Vec<i32> = Vec::new();
    let mut server_result = None;
    let mut client_result = None;
    for _ in 0..10 {
        match s_action {
            HandshakeAction::ReceiveFd if !to_server.is_empty() => {
                let fd = to_server.remove(0);
                s_action = server.step(HandshakeEvent::FdReceived { result: Ok(fd) });
            }
            HandshakeAction::SendFd { fd } => {
                to_client.push(fd);
                s_action = server.step(HandshakeEvent::FdSent { result: Ok(()) });
            }
            HandshakeAction::Finish { ref result } if server_result.is_none() => {
                server_result = Some(result.clone());
            }
            _ => {}
        }
        match c_action {
            HandshakeAction::ReceiveFd if !to_client.is_empty() => {
                let fd = to_client.remove(0);
                c_action = client.step(HandshakeEvent::FdReceived { result: Ok(fd) });
            }
            HandshakeAction::SendFd { fd } => {
                to_server.push(fd);
                c_action = client.step(HandshakeEvent::FdSent { result: Ok(()) });
            }
            HandshakeAction::Finish { ref result } if client_result.is_none() => {
                client_result = Some(result.clone());
            }
            _ => {}
        }
    }
    assert_eq!(server_result, Some(Ok(50)));
    assert_eq!(client_result, Some(Ok(40)));
}
