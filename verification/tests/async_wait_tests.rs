use uintr::async_wait::{get_token, observe, poll_step, SeqLook, SeqPoll, SeqPollStep};
use uintr::UintrError;

#[test]
fn claims_only_new_interrupts() {
    assert!(observe(3, 2) == SeqPoll::Claim { consumed: 3 });
    assert!(observe(3, 3) == SeqPoll::Wait);
    assert!(observe(0, u64::MAX) == SeqPoll::Claim { consumed: 0 });
}

#[test]
fn token_must_be_stored() {
    assert_eq!(get_token(Some(5)), Ok(5));
    assert_eq!(get_token::<i32>(None), Err(UintrError::NotInitialized));
}

#[test]
fn poll_registers_before_waiting() {
    assert!(poll_step(SeqLook::First, 4, 3) == SeqPollStep::Claim { consumed: 4 });
    assert!(poll_step(SeqLook::First, 4, 4) == SeqPollStep::RegisterWaker);
    assert!(poll_step(SeqLook::AfterRegistering, 4, 4) == SeqPollStep::Pending);
    assert!(poll_step(SeqLook::AfterRegistering, 5, 4) == SeqPollStep::Claim { consumed: 5 });
}
