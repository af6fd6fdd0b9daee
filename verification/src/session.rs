//! The message exchange once server and client are connected.
//!
//! The server sends `count` interrupts, each time waiting for the client's
//! answer before the next; the client answers each interrupt it receives
//! until it has answered `count` or is told to stop.  Waiting for an
//! interrupt is a loop: look at the received flag, and if it is not set,
//! wait once in the kernel and look again.  The caller performs each action
//! and hands back what happened.
use vstd::prelude::*;
use crate::{UintrError, UintrResult};

verus! {

/// What a session asks its caller to do next.
pub enum SessionAction {
    /// Send one interrupt to the peer (the server also starts timing it).
    Notify,
    /// Look whether the peer's interrupt has arrived.
    Poll,
    /// Wait once for an interrupt in the kernel.
    Wait,
    /// Clear the received flag (the server also stops timing).
    Complete,
    /// Look whether the client was told to stop.
    CheckStop,
    /// The exchange is over, with this result.
    Finish { result: UintrResult<()> },
}

/// What happened when the caller performed an action.
pub enum SessionEvent {
    Notified { result: UintrResult<()> },
    Polled { received: bool },
    Waited { result: UintrResult<()> },
    Completed,
    StopChecked { stop: bool },
}

/// Where the server's exchange stands.
#[derive(Clone, Copy, Debug, PartialEq, Eq, Structural)]
pub enum ServerSessionPhase {
    Notifying,
    Polling,
    Waiting,
    Completing,
    Finished,
}

/// The server's exchange: `exchanged` messages of `count` are done.
pub struct ServerSession {
    pub phase: ServerSessionPhase,
    pub count: usize,
    pub exchanged: usize,
}

/// The server's transition: the next state and action for an event.
pub open spec fn server_session_next(s: ServerSession, e: SessionEvent) -> Option<(ServerSession, SessionAction)> {
    match (s.phase, e) {
        (ServerSessionPhase::Notifying, SessionEvent::Notified { result: Ok(_) })
        | (ServerSessionPhase::Waiting, SessionEvent::Waited { result: Ok(_) }) => Some((
            ServerSession { phase: ServerSessionPhase::Polling, ..s },
            SessionAction::Poll,
        )),
        (ServerSessionPhase::Notifying, SessionEvent::Notified { result: Err(err) })
        | (ServerSessionPhase::Waiting, SessionEvent::Waited { result: Err(err) }) => Some((
            ServerSession { phase: ServerSessionPhase::Finished, ..s },
            SessionAction::Finish { result: Err(err) },
        )),
        (ServerSessionPhase::Polling, SessionEvent::Polled { received }) => if received {
            Some((ServerSession { phase: ServerSessionPhase::Completing, ..s }, SessionAction::Complete))
        } else {
            Some((ServerSession { phase: ServerSessionPhase::Waiting, ..s }, SessionAction::Wait))
        },
        (ServerSessionPhase::Completing, SessionEvent::Completed) => if s.exchanged + 1 < s.count {
            Some((
                ServerSession { phase: ServerSessionPhase::Notifying, exchanged: (s.exchanged + 1) as usize, ..s },
                SessionAction::Notify,
            ))
        } else {
            Some((
                ServerSession { phase: ServerSessionPhase::Finished, exchanged: (s.exchanged + 1) as usize, ..s },
                SessionAction::Finish { result: Ok(()) },
            ))
        },
        _ => None,
    }
}

/// One message: the interrupt is sent, the answer is there at the first
/// look, and the message is completed.
pub open spec fn server_message_round(s: ServerSession) -> (ServerSession, SessionAction) {
    let polling = server_session_next(s, SessionEvent::Notified { result: Ok(()) }).unwrap().0;
    let completing = server_session_next(polling, SessionEvent::Polled { received: true }).unwrap().0;
    server_session_next(completing, SessionEvent::Completed).unwrap()
}

/// The server after `n` messages.
pub open spec fn server_message_rounds(s: ServerSession, n: nat) -> ServerSession
    decreases n,
{
    if n == 0 { s } else { server_message_round(server_message_rounds(s, (n - 1) as nat)).0 }
}

proof fn lemma_server_message_rounds(s: ServerSession, n: nat)
    requires
        s.phase == ServerSessionPhase::Notifying,
        s.exchanged == 0,
        n < s.count,
    ensures
        server_message_rounds(s, n) == (ServerSession { exchanged: n as usize, ..s }),
    decreases n,
{
    if n > 0 {
        lemma_server_message_rounds(s, (n - 1) as nat);
    }
}

/// A server session sends exactly `count` interrupts when every answer
/// comes: after each of the first `count - 1` messages it sends the next,
/// and after message `count` it finishes successfully.
pub proof fn law_server_sends_exactly_count(s: ServerSession)
    requires
        s.phase == ServerSessionPhase::Notifying,
        s.exchanged == 0,
        s.count > 0,
    ensures
        forall|n: nat| 0 < n < s.count ==> #[trigger] server_message_round(
            server_message_rounds(s, (n - 1) as nat),
        ) == (ServerSession { exchanged: n as usize, ..s }, SessionAction::Notify),
        server_message_round(server_message_rounds(s, (s.count - 1) as nat)) == (
            ServerSession { phase: ServerSessionPhase::Finished, exchanged: s.count, ..s },
            SessionAction::Finish { result: Ok(()) },
        ),
{
    assert forall|n: nat| 0 < n < s.count implies #[trigger] server_message_round(
        server_message_rounds(s, (n - 1) as nat),
    ) == (ServerSession { exchanged: n as usize, ..s }, SessionAction::Notify) by {
        lemma_server_message_rounds(s, (n - 1) as nat);
    }
    lemma_server_message_rounds(s, (s.count - 1) as nat);
}

impl ServerSessionPhase {
    /// The event the caller owes in this phase.
    pub open spec fn expects(self, e: SessionEvent) -> bool {
        match self {
            ServerSessionPhase::Notifying => e is Notified,
            ServerSessionPhase::Polling => e is Polled,
            ServerSessionPhase::Waiting => e is Waited,
            ServerSessionPhase::Completing => e is Completed,
            ServerSessionPhase::Finished => false,
        }
    }
}

impl ServerSession {
    /// While messages remain, fewer than `count` are done.
    pub open spec fn wf(&self) -> bool {
        &&& self.exchanged <= self.count
        &&& self.phase != ServerSessionPhase::Finished ==> self.exchanged < self.count
    }

    /// A session of `count` messages and its first action: the first
    /// interrupt, or the end when there is nothing to send.
    pub fn new(count: usize) -> (r: (Self, SessionAction))
        ensures
            r.0.wf(),
            r.0.count == count,
            r.0.exchanged == 0,
            count == 0 ==> r.0.phase == ServerSessionPhase::Finished
                && r.1 == (SessionAction::Finish { result: Ok(()) }),
            count > 0 ==> r.0.phase == ServerSessionPhase::Notifying && r.1 is Notify,
    {
        if count == 0 {
            (ServerSession { phase: ServerSessionPhase::Finished, count, exchanged: 0 },
             SessionAction::Finish { result: Ok(()) })
        } else {
            (ServerSession { phase: ServerSessionPhase::Notifying, count, exchanged: 0 },
             SessionAction::Notify)
        }
    }

    /// Takes what happened and returns the next action.
    pub fn step(&mut self, event: SessionEvent) -> (a: SessionAction)
        requires
            old(self).wf(),
            old(self).phase.expects(event),
        ensures
            final(self).wf(),
            final(self).count == old(self).count,
            a matches SessionAction::Finish { result: Ok(_) } ==> final(self).exchanged == final(self).count,
            a is Notify ==> final(self).exchanged < final(self).count,
            server_session_next(*old(self), event) == Some((*final(self), a)),
            match (old(self).phase, event) {
                (ServerSessionPhase::Notifying, SessionEvent::Notified { result: Ok(_) })
                | (ServerSessionPhase::Waiting, SessionEvent::Waited { result: Ok(_) }) => {
                    &&& final(self).phase == ServerSessionPhase::Polling
                    &&& final(self).exchanged == old(self).exchanged
                    &&& a is Poll
                },
                (ServerSessionPhase::Notifying, SessionEvent::Notified { result: Err(e) })
                | (ServerSessionPhase::Waiting, SessionEvent::Waited { result: Err(e) }) => {
                    &&& final(self).phase == ServerSessionPhase::Finished
                    &&& final(self).exchanged == old(self).exchanged
                    &&& a == (SessionAction::Finish { result: Err(e) })
                },
                (ServerSessionPhase::Polling, SessionEvent::Polled { received }) => {
                    &&& final(self).exchanged == old(self).exchanged
                    &&& if received {
                        final(self).phase == ServerSessionPhase::Completing && a is Complete
                    } else {
                        final(self).phase == ServerSessionPhase::Waiting && a is Wait
                    }
                },
                (ServerSessionPhase::Completing, SessionEvent::Completed) => {
                    &&& final(self).exchanged == old(self).exchanged + 1
                    &&& if final(self).exchanged < old(self).count {
                        final(self).phase == ServerSessionPhase::Notifying && a is Notify
                    } else {
                        final(self).phase == ServerSessionPhase::Finished
                            && a == (SessionAction::Finish { result: Ok(()) })
                    }
                },
                _ => false,
            },
    {
        let phase = self.phase;
        match (phase, event) {
            (ServerSessionPhase::Notifying, SessionEvent::Notified { result: Ok(_) })
            | (ServerSessionPhase::Waiting, SessionEvent::Waited { result: Ok(_) }) => {
                self.phase = ServerSessionPhase::Polling;
                SessionAction::Poll
            },
            (ServerSessionPhase::Notifying, SessionEvent::Notified { result: Err(e) })
            | (ServerSessionPhase::Waiting, SessionEvent::Waited { result: Err(e) }) => {
                self.phase = ServerSessionPhase::Finished;
                SessionAction::Finish { result: Err(e) }
            },
            (ServerSessionPhase::Polling, SessionEvent::Polled { received }) => {
                if received {
                    self.phase = ServerSessionPhase::Completing;
                    SessionAction::Complete
                } else {
                    self.phase = ServerSessionPhase::Waiting;
                    SessionAction::Wait
                }
            },
            (ServerSessionPhase::Completing, SessionEvent::Completed) => {
                self.exchanged = self.exchanged + 1;
                if self.exchanged < self.count {
                    self.phase = ServerSessionPhase::Notifying;
                    SessionAction::Notify
                } else {
                    self.phase = ServerSessionPhase::Finished;
                    SessionAction::Finish { result: Ok(()) }
                }
            },
            _ => unreached(),
        }
    }
}

/// Where the client's exchange stands.
#[derive(Clone, Copy, Debug, PartialEq, Eq, Structural)]
pub enum ClientSessionPhase {
    CheckingStop,
    Polling,
    Waiting,
    Completing,
    Notifying,
    Finished,
}

/// The client's exchange: `exchanged` answers of at most `count` are sent.
pub struct ClientSession {
    pub phase: ClientSessionPhase,
    pub count: usize,
    pub exchanged: usize,
}

/// The client's transition: the next state and action for an event.
pub open spec fn client_session_next(s: ClientSession, e: SessionEvent) -> Option<(ClientSession, SessionAction)> {
    match (s.phase, e) {
        (ClientSessionPhase::CheckingStop, SessionEvent::StopChecked { stop }) => if stop {
            Some((
                ClientSession { phase: ClientSessionPhase::Finished, ..s },
                SessionAction::Finish { result: Ok(()) },
            ))
        } else {
            Some((ClientSession { phase: ClientSessionPhase::Polling, ..s }, SessionAction::Poll))
        },
        (ClientSessionPhase::Polling, SessionEvent::Polled { received }) => if received {
            Some((ClientSession { phase: ClientSessionPhase::Completing, ..s }, SessionAction::Complete))
        } else {
            Some((ClientSession { phase: ClientSessionPhase::Waiting, ..s }, SessionAction::Wait))
        },
        (ClientSessionPhase::Waiting, SessionEvent::Waited { result: Ok(_) }) => Some((
            ClientSession { phase: ClientSessionPhase::Polling, ..s },
            SessionAction::Poll,
        )),
        (ClientSessionPhase::Completing, SessionEvent::Completed) => Some((
            ClientSession { phase: ClientSessionPhase::Notifying, ..s },
            SessionAction::Notify,
        )),
        (ClientSessionPhase::Notifying, SessionEvent::Notified { result: Ok(_) }) => if s.exchanged + 1 < s.count {
            Some((
                ClientSession { phase: ClientSessionPhase::CheckingStop, exchanged: (s.exchanged + 1) as usize, ..s },
                SessionAction::CheckStop,
            ))
        } else {
            Some((
                ClientSession { phase: ClientSessionPhase::Finished, exchanged: (s.exchanged + 1) as usize, ..s },
                SessionAction::Finish { result: Ok(()) },
            ))
        },
        (ClientSessionPhase::Waiting, SessionEvent::Waited { result: Err(err) })
        | (ClientSessionPhase::Notifying, SessionEvent::Notified { result: Err(err) }) => Some((
            ClientSession { phase: ClientSessionPhase::Finished, ..s },
            SessionAction::Finish { result: Err(err) },
        )),
        _ => None,
    }
}

/// One answer: not told to stop, the interrupt is there at the first look,
/// it is completed, and the answer is sent.
pub open spec fn client_message_round(s: ClientSession) -> (ClientSession, SessionAction) {
    let polling = client_session_next(s, SessionEvent::StopChecked { stop: false }).unwrap().0;
    let completing = client_session_next(polling, SessionEvent::Polled { received: true }).unwrap().0;
    let notifying = client_session_next(completing, SessionEvent::Completed).unwrap().0;
    client_session_next(notifying, SessionEvent::Notified { result: Ok(()) }).unwrap()
}

/// The client after `n` answers.
pub open spec fn client_message_rounds(s: ClientSession, n: nat) -> ClientSession
    decreases n,
{
    if n == 0 { s } else { client_message_round(client_message_rounds(s, (n - 1) as nat)).0 }
}

proof fn lemma_client_message_rounds(s: ClientSession, n: nat)
    requires
        s.phase == ClientSessionPhase::CheckingStop,
        s.exchanged == 0,
        n < s.count,
    ensures
        client_message_rounds(s, n) == (ClientSession { exchanged: n as usize, ..s }),
    decreases n,
{
    if n > 0 {
        lemma_client_message_rounds(s, (n - 1) as nat);
    }
}

/// A client session that is never told to stop answers exactly `count`
/// interrupts: after each of the first `count - 1` answers it looks for
/// the next, and after answer `count` it finishes successfully.
pub proof fn law_client_answers_exactly_count(s: ClientSession)
    requires
        s.phase == ClientSessionPhase::CheckingStop,
        s.exchanged == 0,
        s.count > 0,
    ensures
        forall|n: nat| 0 < n < s.count ==> #[trigger] client_message_round(
            client_message_rounds(s, (n - 1) as nat),
        ) == (ClientSession { exchanged: n as usize, ..s }, SessionAction::CheckStop),
        client_message_round(client_message_rounds(s, (s.count - 1) as nat)) == (
            ClientSession { phase: ClientSessionPhase::Finished, exchanged: s.count, ..s },
            SessionAction::Finish { result: Ok(()) },
        ),
{
    assert forall|n: nat| 0 < n < s.count implies #[trigger] client_message_round(
        client_message_rounds(s, (n - 1) as nat),
    ) == (ClientSession { exchanged: n as usize, ..s }, SessionAction::CheckStop) by {
        lemma_client_message_rounds(s, (n - 1) as nat);
    }
    lemma_client_message_rounds(s, (s.count - 1) as nat);
}

impl ClientSessionPhase {
    /// The event the caller owes in this phase.
    pub open spec fn expects(self, e: SessionEvent) -> bool {
        match self {
            ClientSessionPhase::CheckingStop => e is StopChecked,
            ClientSessionPhase::Polling => e is Polled,
            ClientSessionPhase::Waiting => e is Waited,
            ClientSessionPhase::Completing => e is Completed,
            ClientSessionPhase::Notifying => e is Notified,
            ClientSessionPhase::Finished => false,
        }
    }
}

impl ClientSession {
    /// While answers remain, fewer than `count` are sent.
    pub open spec fn wf(&self) -> bool {
        &&& self.exchanged <= self.count
        &&& self.phase != ClientSessionPhase::Finished ==> self.exchanged < self.count
    }

    /// A session of at most `count` answers and its first action: look
    /// whether to stop, or the end when there is nothing to answer.
    pub fn new(count: usize) -> (r: (Self, SessionAction))
        ensures
            r.0.wf(),
            r.0.count == count,
            r.0.exchanged == 0,
            count == 0 ==> r.0.phase == ClientSessionPhase::Finished
                && r.1 == (SessionAction::Finish { result: Ok(()) }),
            count > 0 ==> r.0.phase == ClientSessionPhase::CheckingStop && r.1 is CheckStop,
    {
        if count == 0 {
            (ClientSession { phase: ClientSessionPhase::Finished, count, exchanged: 0 },
             SessionAction::Finish { result: Ok(()) })
        } else {
            (ClientSession { phase: ClientSessionPhase::CheckingStop, count, exchanged: 0 },
             SessionAction::CheckStop)
        }
    }

    /// Takes what happened and returns the next action.
    pub fn step(&mut self, event: SessionEvent) -> (a: SessionAction)
        requires
            old(self).wf(),
            old(self).phase.expects(event),
        ensures
            final(self).wf(),
            final(self).count == old(self).count,
            client_session_next(*old(self), event) == Some((*final(self), a)),
            match (old(self).phase, event) {
                (ClientSessionPhase::CheckingStop, SessionEvent::StopChecked { stop }) => {
                    &&& final(self).exchanged == old(self).exchanged
                    &&& if stop {
                        final(self).phase == ClientSessionPhase::Finished
                            && a == (SessionAction::Finish { result: Ok(()) })
                    } else {
                        final(self).phase == ClientSessionPhase::Polling && a is Poll
                    }
                },
                (ClientSessionPhase::Polling, SessionEvent::Polled { received }) => {
                    &&& final(self).exchanged == old(self).exchanged
                    &&& if received {
                        final(self).phase == ClientSessionPhase::Completing && a is Complete
                    } else {
                        final(self).phase == ClientSessionPhase::Waiting && a is Wait
                    }
                },
                (ClientSessionPhase::Waiting, SessionEvent::Waited { result: Ok(_) }) => {
                    &&& final(self).phase == ClientSessionPhase::Polling
                    &&& final(self).exchanged == old(self).exchanged
                    &&& a is Poll
                },
                (ClientSessionPhase::Completing, SessionEvent::Completed) => {
                    &&& final(self).phase == ClientSessionPhase::Notifying
                    &&& final(self).exchanged == old(self).exchanged
                    &&& a is Notify
                },
                (ClientSessionPhase::Notifying, SessionEvent::Notified { result: Ok(_) }) => {
                    &&& final(self).exchanged == old(self).exchanged + 1
                    &&& if final(self).exchanged < old(self).count {
                        final(self).phase == ClientSessionPhase::CheckingStop && a is CheckStop
                    } else {
                        final(self).phase == ClientSessionPhase::Finished
                            && a == (SessionAction::Finish { result: Ok(()) })
                    }
                },
                (ClientSessionPhase::Waiting, SessionEvent::Waited { result: Err(e) })
                | (ClientSessionPhase::Notifying, SessionEvent::Notified { result: Err(e) }) => {
                    &&& final(self).phase == ClientSessionPhase::Finished
                    &&& final(self).exchanged == old(self).exchanged
                    &&& a == (SessionAction::Finish { result: Err(e) })
                },
                _ => false,
            },
    {
        let phase = self.phase;
        match (phase, event) {
            (ClientSessionPhase::CheckingStop, SessionEvent::StopChecked { stop }) => {
                if stop {
                    self.phase = ClientSessionPhase::Finished;
                    SessionAction::Finish { result: Ok(()) }
                } else {
                    self.phase = ClientSessionPhase::Polling;
                    SessionAction::Poll
                }
            },
            (ClientSessionPhase::Polling, SessionEvent::Polled { received }) => {
                if received {
                    self.phase = ClientSessionPhase::Completing;
                    SessionAction::Complete
                } else {
                    self.phase = ClientSessionPhase::Waiting;
                    SessionAction::Wait
                }
            },
            (ClientSessionPhase::Waiting, SessionEvent::Waited { result: Ok(_) }) => {
                self.phase = ClientSessionPhase::Polling;
                SessionAction::Poll
            },
            (ClientSessionPhase::Completing, SessionEvent::Completed) => {
                self.phase = ClientSessionPhase::Notifying;
                SessionAction::Notify
            },
            (ClientSessionPhase::Notifying, SessionEvent::Notified { result: Ok(_) }) => {
                self.exchanged = self.exchanged + 1;
                if self.exchanged < self.count {
                    self.phase = ClientSessionPhase::CheckingStop;
                    SessionAction::CheckStop
                } else {
                    self.phase = ClientSessionPhase::Finished;
                    SessionAction::Finish { result: Ok(()) }
                }
            },
            (ClientSessionPhase::Waiting, SessionEvent::Waited { result: Err(e) })
            | (ClientSessionPhase::Notifying, SessionEvent::Notified { result: Err(e) }) => {
                self.phase = ClientSessionPhase::Finished;
                SessionAction::Finish { result: Err(e) }
            },
            _ => unreached(),
        }
    }
}

} // verus!
