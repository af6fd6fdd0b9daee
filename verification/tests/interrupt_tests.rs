use std::task::Waker;
use uintr::interrupt::{InterruptRegistry, TokenSlot, UintrToken, CLIENT_TOKEN, SERVER_TOKEN};
use uintr::UintrError;

#[test]
fn token_name_and_state() {
    let t = UintrToken::new("demo");
    assert_eq!(t.name(), "demo");
    assert!(!t.is_pending());
}

#[test]
fn token_poll_consumes_the_interrupt() {
    let mut t = UintrToken::new("t");
    assert!(!t.poll(Waker::noop().clone()));
    t.set_pending();
    assert!(t.is_pending());
    assert!(t.take_waker().is_some());
    assert!(t.take_waker().is_none());
    assert!(t.poll(Waker::noop().clone()));
    assert!(!t.is_pending());
    assert!(!t.poll(Waker::noop().clone()));
}

#[test]
fn tokens_are_unavailable_until_initialized() {
    let mut r = InterruptRegistry::new();
    assert!(matches!(r.get_server_token(), Err(UintrError::NotInitialized)));
    assert!(matches!(r.get_client_token(), Err(UintrError::NotInitialized)));
    assert_eq!(r.poll(TokenSlot::Server, r.generation(TokenSlot::Server), Waker::noop().clone()), Err(UintrError::NotInitialized));
    r.init_server_token();
    assert_eq!(r.get_server_token().unwrap().name(), "SERVER");
    assert!(r.get_client_token().is_err());
    r.init_client_token();
    assert_eq!(r.get_client_token().unwrap().name(), "CLIENT");
}

#[test]
fn interrupt_is_delivered_once() {
    let mut r = InterruptRegistry::new();
    r.init_server_token();
    assert_eq!(r.poll(TokenSlot::Server, r.generation(TokenSlot::Server), Waker::noop().clone()), Ok(false));
    assert!(!r.check_uintr_pending());
    r.interrupt_callback(SERVER_TOKEN);
    assert!(r.check_uintr_pending());
    assert_eq!(r.process_uintr_wakers().len(), 1);
    assert!(r.check_uintr_pending());
    assert_eq!(r.process_uintr_wakers().len(), 0);
    assert_eq!(r.poll(TokenSlot::Server, r.generation(TokenSlot::Server), Waker::noop().clone()), Ok(true));
    assert!(!r.check_uintr_pending());
    assert_eq!(r.poll(TokenSlot::Server, r.generation(TokenSlot::Server), Waker::noop().clone()), Ok(false));
}

#[test]
fn interrupts_go_to_their_own_token() {
    let mut r = InterruptRegistry::new();
    r.init_server_token();
    r.init_client_token();
    r.interrupt_callback(CLIENT_TOKEN);
    assert!(r.get_client_token().unwrap().is_pending());
    assert!(!r.get_server_token().unwrap().is_pending());
    r.interrupt_callback(77);
    assert!(!r.get_server_token().unwrap().is_pending());
}

#[test]
fn interrupt_for_missing_token_is_ignored() {
    let mut r = InterruptRegistry::new();
    r.interrupt_callback(SERVER_TOKEN);
    assert!(!r.check_uintr_pending());
    r.init_server_token();
    assert!(!r.check_uintr_pending());
}

#[test]
fn wakers_only_for_waiting_tasks() {
    let mut r = InterruptRegistry::new();
    r.init_server_token();
    r.init_client_token();
    r.interrupt_callback(SERVER_TOKEN);
    r.interrupt_callback(CLIENT_TOKEN);
    // Nobody waits yet.
    assert_eq!(r.process_uintr_wakers().len(), 0);
    let mut r = InterruptRegistry::new();
    r.init_server_token();
    r.init_client_token();
    assert_eq!(r.poll(TokenSlot::Server, r.generation(TokenSlot::Server), Waker::noop().clone()), Ok(false));
    assert_eq!(r.poll(TokenSlot::Client, r.generation(TokenSlot::Client), Waker::noop().clone()), Ok(false));
    r.interrupt_callback(SERVER_TOKEN);
    r.interrupt_callback(CLIENT_TOKEN);
    assert_eq!(r.process_uintr_wakers().len(), 2);
}

#[test]
fn a_replaced_token_gets_no_new_interrupt() {
    let mut r = InterruptRegistry::new();
    r.init_server_token();
    let old = r.generation(TokenSlot::Server);
    r.init_server_token();
    let new = r.generation(TokenSlot::Server);
    assert_ne!(old, new);
    r.interrupt_callback(SERVER_TOKEN);
    assert_eq!(r.poll(TokenSlot::Server, old, Waker::noop().clone()), Ok(false));
    assert!(r.check_uintr_pending());
    assert_eq!(r.poll(TokenSlot::Server, new, Waker::noop().clone()), Ok(true));
}

#[test]
fn a_replaced_token_keeps_an_earlier_interrupt() {
    let mut r = InterruptRegistry::new();
    r.init_server_token();
    let old = r.generation(TokenSlot::Server);
    r.interrupt_callback(SERVER_TOKEN);
    r.init_server_token();
    let new = r.generation(TokenSlot::Server);
    // The new token starts with nothing pending.
    assert!(!r.check_uintr_pending());
    assert_eq!(r.poll(TokenSlot::Server, new, Waker::noop().clone()), Ok(false));
    // The old handle still gets the interrupt it was sent, once.
    assert_eq!(r.poll(TokenSlot::Server, old, Waker::noop().clone()), Ok(true));
    assert_eq!(r.poll(TokenSlot::Server, old, Waker::noop().clone()), Ok(false));
    // A handle from a generation that never existed waits.
    assert_eq!(r.poll(TokenSlot::Server, new + 5, Waker::noop().clone()), Ok(false));
}
