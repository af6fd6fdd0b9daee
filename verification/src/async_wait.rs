//! Waiting for an interrupt with a sequence-counting token.
//!
//! The interrupt handler advances the token's sequence counter; a waiting
//! task has seen every interrupt up to its consumed counter.  A poll reads
//! both counters: when they differ it claims the interrupt by moving the
//! consumed counter up to the sequence counter; otherwise it registers its
//! waker, reads again, and waits only when they still agree.
use vstd::prelude::*;
use crate::{UintrError, UintrResult};

verus! {

/// What a poll does with the counters it read.
#[derive(PartialEq, Eq, Structural)]
pub enum SeqPoll {
    /// An interrupt is there: store `consumed` as the consumed counter and
    /// finish the wait.
    Claim { consumed: u64 },
    /// Nothing new: (register the waker and) wait.
    Wait,
}

/// The decision for counters `seq` and `consumed`.
pub open spec fn seq_decision(seq: u64, consumed: u64) -> SeqPoll {
    if seq != consumed { SeqPoll::Claim { consumed: seq } } else { SeqPoll::Wait }
}

/// Decides a poll from the counters it read.
pub fn observe(seq: u64, consumed: u64) -> (d: SeqPoll)
    ensures
        d == seq_decision(seq, consumed),
{
    if seq != consumed {
        SeqPoll::Claim { consumed: seq }
    } else {
        SeqPoll::Wait
    }
}

/// The stored token, or `NotInitialized` when none was stored.
pub fn get_token<T>(stored: Option<T>) -> (r: UintrResult<T>)
    ensures
        match stored {
            Some(t) => r == Ok::<T, UintrError>(t),
            None => r == Err::<T, UintrError>(UintrError::NotInitialized),
        },
{
    match stored {
        Some(t) => Ok(t),
        None => Err(UintrError::NotInitialized),
    }
}

/// Which of a poll's two looks at the counters this is.
#[derive(Clone, Copy, Debug, PartialEq, Eq, Structural)]
pub enum SeqLook {
    /// Before the poll has registered its waker.
    First,
    /// After the poll has registered its waker.
    AfterRegistering,
}

/// What a poll does after one look at the counters.
#[derive(PartialEq, Eq, Structural)]
pub enum SeqPollStep {
    /// Store `consumed` as the consumed counter: the wait is over.
    Claim { consumed: u64 },
    /// Register the task's waker, then look again.
    RegisterWaker,
    /// The wait goes on; the waker is registered.
    Pending,
}

/// The step after a look: claim a new interrupt; otherwise register the
/// waker on the first look, and wait only after it is registered, so an
/// interrupt that arrives in between is not missed.
pub open spec fn seq_step(look: SeqLook, seq: u64, consumed: u64) -> SeqPollStep {
    if seq != consumed {
        SeqPollStep::Claim { consumed: seq }
    } else if look == SeqLook::First {
        SeqPollStep::RegisterWaker
    } else {
        SeqPollStep::Pending
    }
}

/// Decides a poll's step from one look at the counters.
pub fn poll_step(look: SeqLook, seq: u64, consumed: u64) -> (step: SeqPollStep)
    ensures
        step == seq_step(look, seq, consumed),
{
    match observe(seq, consumed) {
        SeqPoll::Claim { consumed } => SeqPollStep::Claim { consumed },
        SeqPoll::Wait => if look == SeqLook::First {
            SeqPollStep::RegisterWaker
        } else {
            SeqPollStep::Pending
        },
    }
}

/// A poll waits only once its waker is registered, and claims an interrupt
/// exactly when one is there.
pub proof fn law_pending_only_after_registering(look: SeqLook, seq: u64, consumed: u64)
    ensures
        seq_step(look, seq, consumed) is Pending ==> look == SeqLook::AfterRegistering,
        seq_step(look, seq, consumed) is Claim <==> seq != consumed,
        seq_step(SeqLook::First, seq, consumed) != SeqPollStep::Pending,
{
}

/// An interrupt is claimed once: after a claim, reading the same sequence
/// counter again waits; a new interrupt (the counter moves on) is claimed.
pub proof fn law_claimed_once(seq: u64, consumed: u64, later: u64)
    requires
        seq != consumed,
        later != seq,
    ensures
        seq_decision(seq, consumed) == (SeqPoll::Claim { consumed: seq }),
        seq_decision(seq, seq) == SeqPoll::Wait,
        seq_decision(later, seq) == (SeqPoll::Claim { consumed: later }),
{
}


/// Whenever the counters differ, a look at either stage claims exactly the
/// sequence counter it read, so that, after the claim, the same counters no
/// longer claim; when they agree nothing is claimed.
pub proof fn law_claim_takes_the_sequence_counter(look: SeqLook, seq: u64, consumed: u64)
    ensures
        seq != consumed ==> seq_step(look, seq, consumed) == (SeqPollStep::Claim { consumed: seq }),
        seq != consumed ==> seq_decision(seq, consumed) == (SeqPoll::Claim { consumed: seq }),
        !(seq_step(look, seq, seq) is Claim),
        seq_decision(seq, seq) == SeqPoll::Wait,
{
}

} // verus!
