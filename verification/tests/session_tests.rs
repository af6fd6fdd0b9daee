use uintr::session::{
    ClientSession, ClientSessionPhase, ServerSession, ServerSessionPhase, SessionAction, SessionEvent,
};
use uintr::UintrError;

#[test]
fn server_sends_count_messages_one_at_a_time() {
    let (mut s, mut a) = ServerSession::new(3);
    let mut notifies = 0;
    let mut waits = 0;
    loop {
        a = match a {
            SessionAction::Notify => {
                notifies += 1;
                s.step(SessionEvent::Notified { result: Ok(()) })
            }
            // The answer arrives after one wait in the kernel.
            SessionAction::Poll => {
                let received = waits >= notifies;
                s.step(SessionEvent::Polled { received })
            }
            SessionAction::Wait => {
                waits += 1;
                s.step(SessionEvent::Waited { result: Ok(()) })
            }
            SessionAction::Complete => s.step(SessionEvent::Completed),
            SessionAction::Finish { result } => {
                assert_eq!(result, Ok(()));
                break;
            }
            SessionAction::CheckStop => panic!("the server never checks for a stop"),
        };
    }
    assert_eq!(notifies, 3);
    assert_eq!(waits, 3);
    assert_eq!(s.exchanged, 3);
    assert!(s.phase == ServerSessionPhase::Finished);
}

#[test]
fn server_with_nothing_to_send() {
    let (s, a) = ServerSession::new(0);
    assert!(matches!(a, SessionAction::Finish { result: Ok(()) }));
    assert_eq!(s.exchanged, 0);
}

#[test]
fn server_stops_on_errors() {
    let (mut s, _) = ServerSession::new(2);
    let e = UintrError::NotInitialized;
    assert!(matches!(
        s.step(SessionEvent::Notified { result: Err(e.clone()) }),
        SessionAction::Finish { result: Err(UintrError::NotInitialized) }
    ));
    let (mut s, _) = ServerSession::new(2);
    s.step(SessionEvent::Notified { result: Ok(()) });
    assert!(matches!(s.step(SessionEvent::Polled { received: false }), SessionAction::Wait));
    let e = UintrError::SyscallError("uintr_wait failed: x".to_string());
    match s.step(SessionEvent::Waited { result: Err(e.clone()) }) {
        SessionAction::Finish { result } => assert_eq!(result, Err(e)),
        _ => panic!("expected the end"),
    }
}

#[test]
fn client_answers_until_count_or_stop() {
    let (mut c, a) = ClientSession::new(2);
    assert!(matches!(a, SessionAction::CheckStop));
    assert!(matches!(c.step(SessionEvent::StopChecked { stop: false }), SessionAction::Poll));
    assert!(matches!(c.step(SessionEvent::Polled { received: true }), SessionAction::Complete));
    assert!(matches!(c.step(SessionEvent::Completed), SessionAction::Notify));
    assert!(matches!(c.step(SessionEvent::Notified { result: Ok(()) }), SessionAction::CheckStop));
    assert!(matches!(c.step(SessionEvent::StopChecked { stop: false }), SessionAction::Poll));
    assert!(matches!(c.step(SessionEvent::Polled { received: false }), SessionAction::Wait));
    assert!(matches!(c.step(SessionEvent::Waited { result: Ok(()) }), SessionAction::Poll));
    assert!(matches!(c.step(SessionEvent::Polled { received: true }), SessionAction::Complete));
    assert!(matches!(c.step(SessionEvent::Completed), SessionAction::Notify));
    assert!(matches!(
        c.step(SessionEvent::Notified { result: Ok(()) }),
        SessionAction::Finish { result: Ok(()) }
    ));
    assert_eq!(c.exchanged, 2);

    let (mut c, _) = ClientSession::new(5);
    assert!(matches!(
        c.step(SessionEvent::StopChecked { stop: true }),
        SessionAction::Finish { result: Ok(()) }
    ));
    assert_eq!(c.exchanged, 0);
    assert!(c.phase == ClientSessionPhase::Finished);
    assert!(matches!(ClientSession::new(0).1, SessionAction::Finish { result: Ok(()) }));
}
