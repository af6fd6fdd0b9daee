//! Passing a UINTR file descriptor between server and client.
//!
//! A descriptor travels over a Unix domain socket in an `SCM_RIGHTS` control
//! message.  This module frames and reads that control message as bytes
//! (x86-64 Linux layout: user interrupts exist only on x86-64, and the
//! system calls are Linux's) and holds the handshake of both sides as state
//! machines: the caller performs each action on the real socket and hands
//! back what happened.
use vstd::prelude::*;
use vstd::string::*;
use crate::{UintrError, UintrResult};
use crate::syscall::{OsError, failure_text, failure_message};

verus! {

/// Size of `struct cmsghdr` (a `size_t` length, then level and type as C
/// `int`s), already a multiple of the header alignment.
pub const CMSG_HEADER_LEN: usize = 16;

/// `CMSG_LEN` for one descriptor: the header followed by one C `int`.
pub const FD_CMSG_LEN: usize = 20;

/// `CMSG_SPACE` for one descriptor: the control buffer's size.
pub const FD_CMSG_SPACE: usize = 24;

/// Reads `libc::SOL_SOCKET`, the socket-level protocol number.  The libc
/// source gives it the value 1 on Linux outside MIPS and SPARC; the library
/// targets x86-64 Linux, the only platform with user interrupts (other
/// systems, such as the BSDs, use other values and are not targets).
#[verifier::external_body]
fn sol_socket() -> (r: libc::c_int)
    ensures
        r == 1,
{
    libc::SOL_SOCKET
}

/// Reads `libc::SCM_RIGHTS`, the control message type that carries
/// descriptors.  The libc source gives it the value 1 on Linux, the
/// library's only target (x86-64 Linux, as for `sol_socket`).
#[verifier::external_body]
fn scm_rights() -> (r: libc::c_int)
    ensures
        r == 1,
{
    libc::SCM_RIGHTS
}

/// The four little-endian bytes of a C `int`.
pub open spec fn int_bytes(v: libc::c_int) -> Seq<u8> {
    seq![v as u8, (v >> 8u32) as u8, (v >> 16u32) as u8, (v >> 24u32) as u8]
}

/// The C `int` whose little-endian bytes stand at `at` in `b`.
pub open spec fn int_at(b: Seq<u8>, at: int) -> libc::c_int {
    (b[at] + b[at + 1] * 0x100 + b[at + 2] * 0x1_0000 + b[at + 3] * 0x100_0000) as libc::c_int
}

proof fn lemma_int_bytes_one()
    ensures
        int_bytes(1) == seq![1u8, 0u8, 0u8, 0u8],
{
    assert((1i32 >> 8u32) as u8 == 0u8) by (bit_vector);
    assert((1i32 >> 16u32) as u8 == 0u8) by (bit_vector);
    assert((1i32 >> 24u32) as u8 == 0u8) by (bit_vector);
    assert(int_bytes(1) =~= seq![1u8, 0u8, 0u8, 0u8]);
}

/// The control buffer that carries descriptor `fd`: a header whose length
/// field is `FD_CMSG_LEN` (eight bytes), level `SOL_SOCKET` and type
/// `SCM_RIGHTS`, then the descriptor, then zero padding up to `FD_CMSG_SPACE`.
pub open spec fn fd_control_message(fd: libc::c_int) -> Seq<u8> {
    seq![20u8, 0u8, 0u8, 0u8, 0u8, 0u8, 0u8, 0u8]
        + int_bytes(1) + int_bytes(1) + int_bytes(fd) + seq![0u8, 0u8, 0u8, 0u8]
}

/// The descriptor a received control buffer carries: present when the
/// kernel filled at least one header and that header has level `SOL_SOCKET`
/// and type `SCM_RIGHTS`; it is the `int` that follows the header.
pub open spec fn fd_in_control(control: Seq<u8>, control_len: int) -> Option<libc::c_int> {
    if control_len >= CMSG_HEADER_LEN && int_at(control, 8) == 1 && int_at(control, 12) == 1 {
        Some(int_at(control, CMSG_HEADER_LEN as int))
    } else {
        None
    }
}

fn push_int(out: &mut Vec<u8>, v: libc::c_int)
    ensures
        final(out)@ == old(out)@ + int_bytes(v),
{
    out.push(v as u8);
    out.push((v >> 8u32) as u8);
    out.push((v >> 16u32) as u8);
    out.push((v >> 24u32) as u8);
    assert(final(out)@ =~= old(out)@ + int_bytes(v));
}

fn read_int(b: &Vec<u8>, at: usize) -> (r: libc::c_int)
    requires
        at + 4 <= b.len(),
    ensures
        r == int_at(b@, at as int),
{
    let b0 = b[at] as u32;
    let b1 = b[at + 1] as u32;
    let b2 = b[at + 2] as u32;
    let b3 = b[at + 3] as u32;
    let v: u32 = b0 + b1 * 0x100 + b2 * 0x1_0000 + b3 * 0x100_0000;
    #[verifier::truncate]
    (v as libc::c_int)
}

/// The control buffer to send with descriptor `fd`.
pub fn encode_fd_control(fd: libc::c_int) -> (control: Vec<u8>)
    ensures
        control@ == fd_control_message(fd),
        control@.len() == FD_CMSG_SPACE,
{
    let mut control: Vec<u8> = Vec::new();
    control.push(FD_CMSG_LEN as u8);
    let mut i: usize = 1;
    while i < 8
        invariant
            1 <= i <= 8,
            control@ =~= seq![20u8] + Seq::new((i - 1) as nat, |_j: int| 0u8),
        decreases 8 - i,
    {
        control.push(0u8);
        i = i + 1;
    }
    proof {
        lemma_int_bytes_one();
    }
    push_int(&mut control, sol_socket());
    push_int(&mut control, scm_rights());
    push_int(&mut control, fd);
    control.push(0u8);
    control.push(0u8);
    control.push(0u8);
    control.push(0u8);
    assert(control@ =~= fd_control_message(fd));
    control
}

/// Outcome of sending a descriptor: `sendmsg` returned `ret`.
pub fn send_fd_result(ret: libc::ssize_t, err: &OsError) -> (r: UintrResult<()>)
    ensures
        ret >= 0 ==> r == Ok::<(), UintrError>(()),
        ret < 0 ==> (r matches Err(UintrError::SendFdError(m))
            && m@ == failure_text("send_fd"@, err.description@)),
{
    if ret < 0 {
        Err(UintrError::SendFdError(failure_message("send_fd", &err.description)))
    } else {
        Ok(())
    }
}

/// Outcome of receiving a descriptor: `recvmsg` returned `ret` and left
/// `control_len` bytes of control data at the start of `control`.
pub fn recv_fd_result(ret: libc::ssize_t, err: &OsError, control: &Vec<u8>, control_len: usize)
    -> (r: UintrResult<libc::c_int>)
    requires
        control@.len() >= FD_CMSG_LEN,
    ensures
        ret < 0 ==> (r matches Err(UintrError::RecvFdError(m))
            && m@ == failure_text("recv_fd"@, err.description@)),
        ret >= 0 ==> match fd_in_control(control@, control_len as int) {
            Some(fd) => r == Ok::<libc::c_int, UintrError>(fd),
            None => (r matches Err(UintrError::RecvFdError(m))
                && m@ == "recv_fd: no file descriptor received"@),
        },
{
    if ret < 0 {
        return Err(UintrError::RecvFdError(failure_message("recv_fd", &err.description)));
    }
    if control_len < CMSG_HEADER_LEN || read_int(control, 8) != sol_socket()
        || read_int(control, 12) != scm_rights() {
        return Err(UintrError::RecvFdError(String::from_str("recv_fd: no file descriptor received")));
    }
    Ok(read_int(control, CMSG_HEADER_LEN))
}

/// A descriptor framed by `encode_fd_control` is read back unchanged by
/// `recv_fd_result` from a full control buffer.
pub proof fn law_fd_control_round_trip(fd: libc::c_int)
    ensures
        fd_in_control(fd_control_message(fd), FD_CMSG_SPACE as int) == Some(fd),
{
    lemma_int_bytes_one();
    let m = fd_control_message(fd);
    let b0 = (fd as u8);
    let b1 = ((fd >> 8u32) as u8);
    let b2 = ((fd >> 16u32) as u8);
    let b3 = ((fd >> 24u32) as u8);
    assert(m =~= seq![20u8, 0u8, 0u8, 0u8, 0u8, 0u8, 0u8, 0u8, 1u8, 0u8, 0u8, 0u8, 1u8, 0u8, 0u8,
        0u8, b0, b1, b2, b3, 0u8, 0u8, 0u8, 0u8]);
    assert((b0 + b1 * 0x100 + b2 * 0x1_0000 + b3 * 0x100_0000) as libc::c_int == fd) by (bit_vector)
        requires
            b0 == fd as u8,
            b1 == (fd >> 8u32) as u8,
            b2 == (fd >> 16u32) as u8,
            b3 == (fd >> 24u32) as u8,
    ;
}

/// Number of accept (server) or connect (client) attempts before giving up.
pub const CONNECT_ATTEMPTS: u32 = 1000;

/// Pause between two attempts, in milliseconds.
pub const RETRY_DELAY_MS: u64 = 50;

/// A failed attempt is reported when its number is a multiple of this.
pub const REPORT_EVERY: u32 = 100;

/// What a handshake asks its caller to do next.
pub enum HandshakeAction {
    /// Bind the listening socket (server only).
    Bind,
    /// Put the listening socket in non-blocking mode (server only).
    SetNonblocking,
    /// Try once to accept a client (server) or to connect (client);
    /// `attempt` counts from zero.
    Attempt { attempt: u32 },
    /// Sleep, then report `Slept`; `report` asks to tell the user that the
    /// attempt failed.
    Sleep { millis: u64, report: bool },
    /// Receive a descriptor on the connected socket.
    ReceiveFd,
    /// Send descriptor `fd` on the connected socket.
    SendFd { fd: libc::c_int },
    /// The handshake is over, with this result.
    Finish { result: UintrResult<libc::c_int> },
}

/// What happened when the caller performed an action.
pub enum HandshakeEvent {
    /// Binding gave this result (the error's text on failure).
    Bound { result: Result<(), String> },
    /// Setting non-blocking mode gave this result (the error's text on failure).
    NonblockingSet { result: Result<(), String> },
    /// The attempt succeeded or failed.
    Attempted { succeeded: bool },
    /// The pause is over.
    Slept,
    /// Receiving a descriptor gave this result.
    FdReceived { result: UintrResult<libc::c_int> },
    /// Sending a descriptor gave this result.
    FdSent { result: UintrResult<()> },
}

/// Where the server side of the handshake stands.
#[derive(Clone, Copy, Debug, PartialEq, Eq, Structural)]
pub enum ServerPhase {
    Idle,
    Binding,
    SettingNonblocking,
    Accepting { attempt: u32 },
    Pausing { attempt: u32 },
    Receiving,
    Sending { client_fd: libc::c_int },
    Finished,
}

/// The server side: wait for a client, receive the client's descriptor, then
/// send the server's own descriptor.
pub struct ServerHandshake {
    pub phase: ServerPhase,
    /// A client socket has been accepted (it stays accepted across runs).
    pub connected: bool,
    /// The client's descriptor, once received.
    pub client_fd: Option<libc::c_int>,
    /// The server's descriptor, sent to the client.
    pub server_fd: libc::c_int,
}

/// The text `"<prefix><message>"`.
fn prefixed(prefix: &str, message: String) -> (s: String)
    ensures
        s@ == prefix@ + message@,
{
    String::from_str(prefix).concat(message.as_str())
}

/// The server's steps once a client connects and nothing fails: accept,
/// receive the client's descriptor, send its own, finish with the client's.
pub open spec fn server_exchange_step(h: ServerHandshake, e: HandshakeEvent)
    -> Option<(ServerHandshake, HandshakeAction)>
{
    match (h.phase, e) {
        (ServerPhase::Accepting { .. }, HandshakeEvent::Attempted { succeeded: true }) => Some((
            ServerHandshake { phase: ServerPhase::Receiving, connected: true, ..h },
            HandshakeAction::ReceiveFd,
        )),
        (ServerPhase::Receiving, HandshakeEvent::FdReceived { result: Ok(fd) }) => Some((
            ServerHandshake { phase: ServerPhase::Sending { client_fd: fd }, client_fd: Some(fd), ..h },
            HandshakeAction::SendFd { fd: h.server_fd },
        )),
        (ServerPhase::Sending { client_fd }, HandshakeEvent::FdSent { result: Ok(_) }) => Some((
            ServerHandshake { phase: ServerPhase::Finished, ..h },
            HandshakeAction::Finish { result: Ok(client_fd) },
        )),
        _ => None,
    }
}

/// The server's steps while accepting fails: pause, then try again, or
/// after the last attempt go on with an earlier connection or time out.
pub open spec fn server_retry_step(h: ServerHandshake, e: HandshakeEvent)
    -> Option<(ServerHandshake, HandshakeAction)>
{
    match (h.phase, e) {
        (ServerPhase::Accepting { attempt }, HandshakeEvent::Attempted { succeeded: false }) => Some((
            ServerHandshake { phase: ServerPhase::Pausing { attempt }, ..h },
            HandshakeAction::Sleep { millis: RETRY_DELAY_MS, report: attempt % REPORT_EVERY == 0 },
        )),
        (ServerPhase::Pausing { attempt }, HandshakeEvent::Slept) => if attempt + 1 < CONNECT_ATTEMPTS {
            Some((
                ServerHandshake { phase: ServerPhase::Accepting { attempt: (attempt + 1) as u32 }, ..h },
                HandshakeAction::Attempt { attempt: (attempt + 1) as u32 },
            ))
        } else if h.connected {
            Some((ServerHandshake { phase: ServerPhase::Receiving, ..h }, HandshakeAction::ReceiveFd))
        } else {
            Some((
                ServerHandshake { phase: ServerPhase::Finished, ..h },
                HandshakeAction::Finish { result: Err(UintrError::Timeout) },
            ))
        },
        _ => None,
    }
}

/// One failed accept attempt and the pause after it.
pub open spec fn server_failed_round(h: ServerHandshake) -> (ServerHandshake, HandshakeAction) {
    let paused = server_retry_step(h, HandshakeEvent::Attempted { succeeded: false }).unwrap().0;
    server_retry_step(paused, HandshakeEvent::Slept).unwrap()
}

/// The server after `n` failed rounds.
pub open spec fn server_failed_rounds(h: ServerHandshake, n: nat) -> ServerHandshake
    decreases n,
{
    if n == 0 { h } else { server_failed_round(server_failed_rounds(h, (n - 1) as nat)).0 }
}

proof fn lemma_server_failed_rounds(h: ServerHandshake, n: nat)
    requires
        h.phase == (ServerPhase::Accepting { attempt: 0 }),
        n < CONNECT_ATTEMPTS,
    ensures
        server_failed_rounds(h, n) == (ServerHandshake { phase: ServerPhase::Accepting { attempt: n as u32 }, ..h }),
    decreases n,
{
    if n > 0 {
        lemma_server_failed_rounds(h, (n - 1) as nat);
    }
}

/// A server that no client reaches, and that had no connection before,
/// tries to accept exactly `CONNECT_ATTEMPTS` times: after each of the
/// first failed rounds it tries again with the next attempt number, and
/// after the last it times out.
pub proof fn law_server_times_out_after_all_attempts(h: ServerHandshake)
    requires
        h.phase == (ServerPhase::Accepting { attempt: 0 }),
        !h.connected,
    ensures
        forall|n: nat| 0 < n < CONNECT_ATTEMPTS ==> #[trigger] server_failed_round(
            server_failed_rounds(h, (n - 1) as nat),
        ).1 == (HandshakeAction::Attempt { attempt: n as u32 }),
        server_failed_round(server_failed_rounds(h, (CONNECT_ATTEMPTS - 1) as nat)).1
            == (HandshakeAction::Finish { result: Err(UintrError::Timeout) }),
{
    assert forall|n: nat| 0 < n < CONNECT_ATTEMPTS implies #[trigger] server_failed_round(
        server_failed_rounds(h, (n - 1) as nat),
    ).1 == (HandshakeAction::Attempt { attempt: n as u32 }) by {
        lemma_server_failed_rounds(h, (n - 1) as nat);
    }
    lemma_server_failed_rounds(h, (CONNECT_ATTEMPTS - 1) as nat);
}

impl ServerPhase {
    /// The attempt counter stays below the number of attempts.
    pub open spec fn wf(self) -> bool {
        match self {
            ServerPhase::Accepting { attempt } => attempt < CONNECT_ATTEMPTS,
            ServerPhase::Pausing { attempt } => attempt < CONNECT_ATTEMPTS,
            _ => true,
        }
    }

    /// The event the caller owes in this phase.
    pub open spec fn expects(self, e: HandshakeEvent) -> bool {
        match self {
            ServerPhase::Binding => e is Bound,
            ServerPhase::SettingNonblocking => e is NonblockingSet,
            ServerPhase::Accepting { .. } => e is Attempted,
            ServerPhase::Pausing { .. } => e is Slept,
            ServerPhase::Receiving => e is FdReceived,
            ServerPhase::Sending { .. } => e is FdSent,
            _ => false,
        }
    }
}

impl ServerHandshake {
    /// A server that will send `server_fd`; nothing accepted yet.
    pub fn new(server_fd: libc::c_int) -> (h: Self)
        ensures
            h.phase == ServerPhase::Idle,
            !h.connected,
            h.client_fd is None,
            h.server_fd == server_fd,
    {
        ServerHandshake { phase: ServerPhase::Idle, connected: false, client_fd: None, server_fd }
    }

    /// Starts (or restarts) the handshake: the first action is to bind.
    pub fn start(&mut self) -> (a: HandshakeAction)
        ensures
            final(self).phase == ServerPhase::Binding,
            final(self).connected == old(self).connected,
            final(self).client_fd == old(self).client_fd,
            final(self).server_fd == old(self).server_fd,
            a is Bind,
    {
        self.phase = ServerPhase::Binding;
        HandshakeAction::Bind
    }

    /// Takes what happened and returns the next action.
    pub fn step(&mut self, event: HandshakeEvent) -> (a: HandshakeAction)
        requires
            old(self).phase.wf(),
            old(self).phase.expects(event),
        ensures
            final(self).phase.wf(),
            final(self).server_fd == old(self).server_fd,
            server_exchange_step(*old(self), event) matches Some((next, act))
                ==> *final(self) == next && a == act,
            server_retry_step(*old(self), event) matches Some((next, act))
                ==> *final(self) == next && a == act,
            match (old(self).phase, event) {
                (ServerPhase::Binding, HandshakeEvent::Bound { result: Ok(_) }) => {
                    &&& final(self).phase == ServerPhase::SettingNonblocking
                    &&& a is SetNonblocking
                    &&& final(self).connected == old(self).connected
                    &&& final(self).client_fd == old(self).client_fd
                },
                (ServerPhase::Binding, HandshakeEvent::Bound { result: Err(m) }) => {
                    &&& final(self).phase == ServerPhase::Finished
                    &&& a matches HandshakeAction::Finish { result: Err(UintrError::SocketError(t)) }
                    &&& t@ == "Failed to bind socket: "@ + m@
                    &&& final(self).connected == old(self).connected
                    &&& final(self).client_fd == old(self).client_fd
                },
                (ServerPhase::SettingNonblocking, HandshakeEvent::NonblockingSet { result: Ok(_) }) => {
                    &&& final(self).phase == (ServerPhase::Accepting { attempt: 0 })
                    &&& a == (HandshakeAction::Attempt { attempt: 0 })
                    &&& final(self).connected == old(self).connected
                    &&& final(self).client_fd == old(self).client_fd
                },
                (ServerPhase::SettingNonblocking, HandshakeEvent::NonblockingSet { result: Err(m) }) => {
                    &&& final(self).phase == ServerPhase::Finished
                    &&& a matches HandshakeAction::Finish { result: Err(UintrError::SocketError(t)) }
                    &&& t@ == "Failed to set nonblocking: "@ + m@
                    &&& final(self).connected == old(self).connected
                    &&& final(self).client_fd == old(self).client_fd
                },
                (ServerPhase::Accepting { attempt }, HandshakeEvent::Attempted { succeeded }) => {
                    &&& final(self).client_fd == old(self).client_fd
                    &&& if succeeded {
                        &&& final(self).connected
                        &&& final(self).phase == ServerPhase::Receiving
                        &&& a is ReceiveFd
                    } else {
                        &&& final(self).connected == old(self).connected
                        &&& final(self).phase == (ServerPhase::Pausing { attempt })
                        &&& a == (HandshakeAction::Sleep { millis: RETRY_DELAY_MS,
                            report: attempt % REPORT_EVERY == 0 })
                    }
                },
                (ServerPhase::Pausing { attempt }, HandshakeEvent::Slept) => {
                    &&& final(self).connected == old(self).connected
                    &&& final(self).client_fd == old(self).client_fd
                    &&& if attempt + 1 < CONNECT_ATTEMPTS {
                        &&& final(self).phase == (ServerPhase::Accepting { attempt: (attempt + 1) as u32 })
                        &&& a == (HandshakeAction::Attempt { attempt: (attempt + 1) as u32 })
                    } else if old(self).connected {
                        &&& final(self).phase == ServerPhase::Receiving
                        &&& a is ReceiveFd
                    } else {
                        &&& final(self).phase == ServerPhase::Finished
                        &&& a matches HandshakeAction::Finish { result: Err(UintrError::Timeout) }
                    }
                },
                (ServerPhase::Receiving, HandshakeEvent::FdReceived { result: Ok(fd) }) => {
                    &&& final(self).phase == (ServerPhase::Sending { client_fd: fd })
                    &&& final(self).client_fd == Some(fd)
                    &&& final(self).connected == old(self).connected
                    &&& a == (HandshakeAction::SendFd { fd: old(self).server_fd })
                },
                (ServerPhase::Receiving, HandshakeEvent::FdReceived { result: Err(e) }) => {
                    &&& final(self).phase == ServerPhase::Finished
                    &&& final(self).client_fd == old(self).client_fd
                    &&& final(self).connected == old(self).connected
                    &&& a == (HandshakeAction::Finish { result: Err(e) })
                },
                (ServerPhase::Sending { client_fd }, HandshakeEvent::FdSent { result: Ok(_) }) => {
                    &&& final(self).phase == ServerPhase::Finished
                    &&& final(self).client_fd == old(self).client_fd
                    &&& final(self).connected == old(self).connected
                    &&& a == (HandshakeAction::Finish { result: Ok(client_fd) })
                },
                (ServerPhase::Sending { .. }, HandshakeEvent::FdSent { result: Err(e) }) => {
                    &&& final(self).phase == ServerPhase::Finished
                    &&& final(self).client_fd == old(self).client_fd
                    &&& final(self).connected == old(self).connected
                    &&& a == (HandshakeAction::Finish { result: Err(e) })
                },
                _ => false,
            },
    {
        let phase = self.phase;
        match (phase, event) {
            (ServerPhase::Binding, HandshakeEvent::Bound { result: Ok(_) }) => {
                self.phase = ServerPhase::SettingNonblocking;
                HandshakeAction::SetNonblocking
            },
            (ServerPhase::Binding, HandshakeEvent::Bound { result: Err(m) }) => {
                self.phase = ServerPhase::Finished;
                let text = prefixed("Failed to bind socket: ", m);
                HandshakeAction::Finish { result: Err(UintrError::SocketError(text)) }
            },
            (ServerPhase::SettingNonblocking, HandshakeEvent::NonblockingSet { result: Ok(_) }) => {
                self.phase = ServerPhase::Accepting { attempt: 0 };
                HandshakeAction::Attempt { attempt: 0 }
            },
            (ServerPhase::SettingNonblocking, HandshakeEvent::NonblockingSet { result: Err(m) }) => {
                self.phase = ServerPhase::Finished;
                let text = prefixed("Failed to set nonblocking: ", m);
                HandshakeAction::Finish { result: Err(UintrError::SocketError(text)) }
            },
            (ServerPhase::Accepting { attempt }, HandshakeEvent::Attempted { succeeded }) => {
                if succeeded {
                    self.connected = true;
                    self.phase = ServerPhase::Receiving;
                    HandshakeAction::ReceiveFd
                } else {
                    self.phase = ServerPhase::Pausing { attempt };
                    HandshakeAction::Sleep { millis: RETRY_DELAY_MS, report: attempt % REPORT_EVERY == 0 }
                }
            },
            (ServerPhase::Pausing { attempt }, HandshakeEvent::Slept) => {
                if attempt + 1 < CONNECT_ATTEMPTS {
                    self.phase = ServerPhase::Accepting { attempt: attempt + 1 };
                    HandshakeAction::Attempt { attempt: attempt + 1 }
                } else if self.connected {
                    self.phase = ServerPhase::Receiving;
                    HandshakeAction::ReceiveFd
                } else {
                    self.phase = ServerPhase::Finished;
                    HandshakeAction::Finish { result: Err(UintrError::Timeout) }
                }
            },
            (ServerPhase::Receiving, HandshakeEvent::FdReceived { result: Ok(fd) }) => {
                self.client_fd = Some(fd);
                self.phase = ServerPhase::Sending { client_fd: fd };
                HandshakeAction::SendFd { fd: self.server_fd }
            },
            (ServerPhase::Receiving, HandshakeEvent::FdReceived { result: Err(e) }) => {
                self.phase = ServerPhase::Finished;
                HandshakeAction::Finish { result: Err(e) }
            },
            (ServerPhase::Sending { client_fd }, HandshakeEvent::FdSent { result: Ok(_) }) => {
                self.phase = ServerPhase::Finished;
                HandshakeAction::Finish { result: Ok(client_fd) }
            },
            (ServerPhase::Sending { .. }, HandshakeEvent::FdSent { result: Err(e) }) => {
                self.phase = ServerPhase::Finished;
                HandshakeAction::Finish { result: Err(e) }
            },
            _ => unreached(),
        }
    }
}

/// Where the client side of the handshake stands.
#[derive(Clone, Copy, Debug, PartialEq, Eq, Structural)]
pub enum ClientPhase {
    Idle,
    Connecting { attempt: u32 },
    Pausing { attempt: u32 },
    Sending,
    Receiving,
    Finished,
}

/// The client side: connect to the server, send the client's descriptor,
/// then receive the server's descriptor.
pub struct ClientHandshake {
    pub phase: ClientPhase,
    /// A connection to the server exists (it stays across runs).
    pub connected: bool,
    /// The client's descriptor, sent to the server.
    pub client_fd: libc::c_int,
    /// The server's descriptor, once received.
    pub server_fd: Option<libc::c_int>,
}

/// The client's steps once it connects and nothing fails: connect, send
/// its descriptor, receive the server's, finish with the server's.
pub open spec fn client_exchange_step(h: ClientHandshake, e: HandshakeEvent)
    -> Option<(ClientHandshake, HandshakeAction)>
{
    match (h.phase, e) {
        (ClientPhase::Connecting { .. }, HandshakeEvent::Attempted { succeeded: true }) => Some((
            ClientHandshake { phase: ClientPhase::Sending, connected: true, ..h },
            HandshakeAction::SendFd { fd: h.client_fd },
        )),
        (ClientPhase::Sending, HandshakeEvent::FdSent { result: Ok(_) }) => Some((
            ClientHandshake { phase: ClientPhase::Receiving, ..h },
            HandshakeAction::ReceiveFd,
        )),
        (ClientPhase::Receiving, HandshakeEvent::FdReceived { result: Ok(fd) }) => Some((
            ClientHandshake { phase: ClientPhase::Finished, server_fd: Some(fd), ..h },
            HandshakeAction::Finish { result: Ok(fd) },
        )),
        _ => None,
    }
}

/// The client's steps while connecting fails: pause, then try again, or
/// after the last attempt go on with an earlier connection or time out.
pub open spec fn client_retry_step(h: ClientHandshake, e: HandshakeEvent)
    -> Option<(ClientHandshake, HandshakeAction)>
{
    match (h.phase, e) {
        (ClientPhase::Connecting { attempt }, HandshakeEvent::Attempted { succeeded: false }) => Some((
            ClientHandshake { phase: ClientPhase::Pausing { attempt }, ..h },
            HandshakeAction::Sleep { millis: RETRY_DELAY_MS, report: attempt % REPORT_EVERY == 0 },
        )),
        (ClientPhase::Pausing { attempt }, HandshakeEvent::Slept) => if attempt + 1 < CONNECT_ATTEMPTS {
            Some((
                ClientHandshake { phase: ClientPhase::Connecting { attempt: (attempt + 1) as u32 }, ..h },
                HandshakeAction::Attempt { attempt: (attempt + 1) as u32 },
            ))
        } else if h.connected {
            Some((ClientHandshake { phase: ClientPhase::Sending, ..h }, HandshakeAction::SendFd { fd: h.client_fd }))
        } else {
            Some((
                ClientHandshake { phase: ClientPhase::Finished, ..h },
                HandshakeAction::Finish { result: Err(UintrError::Timeout) },
            ))
        },
        _ => None,
    }
}

/// One failed connection attempt and the pause after it.
pub open spec fn client_failed_round(h: ClientHandshake) -> (ClientHandshake, HandshakeAction) {
    let paused = client_retry_step(h, HandshakeEvent::Attempted { succeeded: false }).unwrap().0;
    client_retry_step(paused, HandshakeEvent::Slept).unwrap()
}

/// The client after `n` failed rounds.
pub open spec fn client_failed_rounds(h: ClientHandshake, n: nat) -> ClientHandshake
    decreases n,
{
    if n == 0 { h } else { client_failed_round(client_failed_rounds(h, (n - 1) as nat)).0 }
}

proof fn lemma_client_failed_rounds(h: ClientHandshake, n: nat)
    requires
        h.phase == (ClientPhase::Connecting { attempt: 0 }),
        n < CONNECT_ATTEMPTS,
    ensures
        client_failed_rounds(h, n) == (ClientHandshake { phase: ClientPhase::Connecting { attempt: n as u32 }, ..h }),
    decreases n,
{
    if n > 0 {
        lemma_client_failed_rounds(h, (n - 1) as nat);
    }
}

/// A client that never reaches the server, and had no connection before,
/// tries exactly `CONNECT_ATTEMPTS` times: after each of the first failed
/// rounds it tries again with the next attempt number, and after the last
/// it times out.
pub proof fn law_client_times_out_after_all_attempts(h: ClientHandshake)
    requires
        h.phase == (ClientPhase::Connecting { attempt: 0 }),
        !h.connected,
    ensures
        forall|n: nat| 0 < n < CONNECT_ATTEMPTS ==> #[trigger] client_failed_round(
            client_failed_rounds(h, (n - 1) as nat),
        ).1 == (HandshakeAction::Attempt { attempt: n as u32 }),
        client_failed_round(client_failed_rounds(h, (CONNECT_ATTEMPTS - 1) as nat)).1
            == (HandshakeAction::Finish { result: Err(UintrError::Timeout) }),
{
    assert forall|n: nat| 0 < n < CONNECT_ATTEMPTS implies #[trigger] client_failed_round(
        client_failed_rounds(h, (n - 1) as nat),
    ).1 == (HandshakeAction::Attempt { attempt: n as u32 }) by {
        lemma_client_failed_rounds(h, (n - 1) as nat);
    }
    lemma_client_failed_rounds(h, (CONNECT_ATTEMPTS - 1) as nat);
}

impl ClientPhase {
    /// The attempt counter stays below the number of attempts.
    pub open spec fn wf(self) -> bool {
        match self {
            ClientPhase::Connecting { attempt } => attempt < CONNECT_ATTEMPTS,
            ClientPhase::Pausing { attempt } => attempt < CONNECT_ATTEMPTS,
            _ => true,
        }
    }

    /// The event the caller owes in this phase.
    pub open spec fn expects(self, e: HandshakeEvent) -> bool {
        match self {
            ClientPhase::Connecting { .. } => e is Attempted,
            ClientPhase::Pausing { .. } => e is Slept,
            ClientPhase::Sending => e is FdSent,
            ClientPhase::Receiving => e is FdReceived,
            _ => false,
        }
    }
}

impl ClientHandshake {
    /// A client that will send `client_fd`; not connected yet.
    pub fn new(client_fd: libc::c_int) -> (h: Self)
        ensures
            h.phase == ClientPhase::Idle,
            !h.connected,
            h.client_fd == client_fd,
            h.server_fd is None,
    {
        ClientHandshake { phase: ClientPhase::Idle, connected: false, client_fd, server_fd: None }
    }

    /// Starts (or restarts) the handshake: the first action is the first
    /// connection attempt.
    pub fn start(&mut self) -> (a: HandshakeAction)
        ensures
            final(self).phase == (ClientPhase::Connecting { attempt: 0 }),
            final(self).connected == old(self).connected,
            final(self).client_fd == old(self).client_fd,
            final(self).server_fd == old(self).server_fd,
            a == (HandshakeAction::Attempt { attempt: 0 }),
    {
        self.phase = ClientPhase::Connecting { attempt: 0 };
        HandshakeAction::Attempt { attempt: 0 }
    }

    /// Takes what happened and returns the next action.
    pub fn step(&mut self, event: HandshakeEvent) -> (a: HandshakeAction)
        requires
            old(self).phase.wf(),
            old(self).phase.expects(event),
        ensures
            final(self).phase.wf(),
            final(self).client_fd == old(self).client_fd,
            client_exchange_step(*old(self), event) matches Some((next, act))
                ==> *final(self) == next && a == act,
            client_retry_step(*old(self), event) matches Some((next, act))
                ==> *final(self) == next && a == act,
            match (old(self).phase, event) {
                (ClientPhase::Connecting { attempt }, HandshakeEvent::Attempted { succeeded }) => {
                    &&& final(self).server_fd == old(self).server_fd
                    &&& if succeeded {
                        &&& final(self).connected
                        &&& final(self).phase == ClientPhase::Sending
                        &&& a == (HandshakeAction::SendFd { fd: old(self).client_fd })
                    } else {
                        &&& final(self).connected == old(self).connected
                        &&& final(self).phase == (ClientPhase::Pausing { attempt })
                        &&& a == (HandshakeAction::Sleep { millis: RETRY_DELAY_MS,
                            report: attempt % REPORT_EVERY == 0 })
                    }
                },
                (ClientPhase::Pausing { attempt }, HandshakeEvent::Slept) => {
                    &&& final(self).connected == old(self).connected
                    &&& final(self).server_fd == old(self).server_fd
                    &&& if attempt + 1 < CONNECT_ATTEMPTS {
                        &&& final(self).phase == (ClientPhase::Connecting { attempt: (attempt + 1) as u32 })
                        &&& a == (HandshakeAction::Attempt { attempt: (attempt + 1) as u32 })
                    } else if old(self).connected {
                        &&& final(self).phase == ClientPhase::Sending
                        &&& a == (HandshakeAction::SendFd { fd: old(self).client_fd })
                    } else {
                        &&& final(self).phase == ClientPhase::Finished
                        &&& a matches HandshakeAction::Finish { result: Err(UintrError::Timeout) }
                    }
                },
                (ClientPhase::Sending, HandshakeEvent::FdSent { result: Ok(_) }) => {
                    &&& final(self).phase == ClientPhase::Receiving
                    &&& final(self).connected == old(self).connected
                    &&& final(self).server_fd == old(self).server_fd
                    &&& a is ReceiveFd
                },
                (ClientPhase::Sending, HandshakeEvent::FdSent { result: Err(e) }) => {
                    &&& final(self).phase == ClientPhase::Finished
                    &&& final(self).connected == old(self).connected
                    &&& final(self).server_fd == old(self).server_fd
                    &&& a == (HandshakeAction::Finish { result: Err(e) })
                },
                (ClientPhase::Receiving, HandshakeEvent::FdReceived { result: Ok(fd) }) => {
                    &&& final(self).phase == ClientPhase::Finished
                    &&& final(self).connected == old(self).connected
                    &&& final(self).server_fd == Some(fd)
                    &&& a == (HandshakeAction::Finish { result: Ok(fd) })
                },
                (ClientPhase::Receiving, HandshakeEvent::FdReceived { result: Err(e) }) => {
                    &&& final(self).phase == ClientPhase::Finished
                    &&& final(self).connected == old(self).connected
                    &&& final(self).server_fd == old(self).server_fd
                    &&& a == (HandshakeAction::Finish { result: Err(e) })
                },
                _ => false,
            },
    {
        let phase = self.phase;
        match (phase, event) {
            (ClientPhase::Connecting { attempt }, HandshakeEvent::Attempted { succeeded }) => {
                if succeeded {
                    self.connected = true;
                    self.phase = ClientPhase::Sending;
                    HandshakeAction::SendFd { fd: self.client_fd }
                } else {
                    self.phase = ClientPhase::Pausing { attempt };
                    HandshakeAction::Sleep { millis: RETRY_DELAY_MS, report: attempt % REPORT_EVERY == 0 }
                }
            },
            (ClientPhase::Pausing { attempt }, HandshakeEvent::Slept) => {
                if attempt + 1 < CONNECT_ATTEMPTS {
                    self.phase = ClientPhase::Connecting { attempt: attempt + 1 };
                    HandshakeAction::Attempt { attempt: attempt + 1 }
                } else if self.connected {
                    self.phase = ClientPhase::Sending;
                    HandshakeAction::SendFd { fd: self.client_fd }
                } else {
                    self.phase = ClientPhase::Finished;
                    HandshakeAction::Finish { result: Err(UintrError::Timeout) }
                }
            },
            (ClientPhase::Sending, HandshakeEvent::FdSent { result: Ok(_) }) => {
                self.phase = ClientPhase::Receiving;
                HandshakeAction::ReceiveFd
            },
            (ClientPhase::Sending, HandshakeEvent::FdSent { result: Err(e) }) => {
                self.phase = ClientPhase::Finished;
                HandshakeAction::Finish { result: Err(e) }
            },
            (ClientPhase::Receiving, HandshakeEvent::FdReceived { result: Ok(fd) }) => {
                self.phase = ClientPhase::Finished;
                self.server_fd = Some(fd);
                HandshakeAction::Finish { result: Ok(fd) }
            },
            (ClientPhase::Receiving, HandshakeEvent::FdReceived { result: Err(e) }) => {
                self.phase = ClientPhase::Finished;
                HandshakeAction::Finish { result: Err(e) }
            },
            _ => unreached(),
        }
    }
}

/// Server and client run together.  Once the client's connection attempt
/// and the server's accept attempt succeed, and no socket operation fails,
/// the two handshakes interlock without deadlock: the server waits to
/// receive while the client sends its descriptor first; the server's receive
/// then gets the client's descriptor and it sends its own; the client's
/// receive gets the server's descriptor.  Both finish, the server with the
/// client's descriptor and the client with the server's, after four
/// exchange steps each side takes in turn.
pub proof fn law_handshakes_exchange_descriptors(server: ServerHandshake, client: ClientHandshake)
    requires
        server.phase is Accepting,
        client.phase is Connecting,
    ensures
        ({
            let s1 = server_exchange_step(server, HandshakeEvent::Attempted { succeeded: true });
            let c1 = client_exchange_step(client, HandshakeEvent::Attempted { succeeded: true });
            let c2 = client_exchange_step(c1.unwrap().0, HandshakeEvent::FdSent { result: Ok(()) });
            let s2 = server_exchange_step(
                s1.unwrap().0,
                HandshakeEvent::FdReceived { result: Ok(client.client_fd) },
            );
            let s3 = server_exchange_step(s2.unwrap().0, HandshakeEvent::FdSent { result: Ok(()) });
            let c3 = client_exchange_step(
                c2.unwrap().0,
                HandshakeEvent::FdReceived { result: Ok(server.server_fd) },
            );
            &&& s1 is Some && s1.unwrap().1 == HandshakeAction::ReceiveFd
            &&& c1 is Some && c1.unwrap().1 == (HandshakeAction::SendFd { fd: client.client_fd })
            &&& c2 is Some && c2.unwrap().1 == HandshakeAction::ReceiveFd
            &&& s2 is Some && s2.unwrap().1 == (HandshakeAction::SendFd { fd: server.server_fd })
            &&& s3 is Some && s3.unwrap().1 == (HandshakeAction::Finish { result: Ok(client.client_fd) })
            &&& s3.unwrap().0.phase == ServerPhase::Finished
            &&& s3.unwrap().0.client_fd == Some(client.client_fd)
            &&& c3 is Some && c3.unwrap().1 == (HandshakeAction::Finish { result: Ok(server.server_fd) })
            &&& c3.unwrap().0.phase == ClientPhase::Finished
            &&& c3.unwrap().0.server_fd == Some(server.server_fd)
        }),
{
}


/// The control message for `fd` is 24 bytes: the length 20 as a
/// little-endian 8-byte word, level 1 and type 1 as 4-byte words, the
/// descriptor's four little-endian bytes, and four zero bytes.  A received
/// buffer with less than a whole header, or whose header is not level 1 and
/// type 1, carries no descriptor.
pub proof fn law_fd_control_layout(fd: libc::c_int, control: Seq<u8>, control_len: int)
    ensures
        fd_control_message(fd).len() == 24,
        fd_control_message(fd)[0] == 20u8,
        forall|i: int| 1 <= i < 8 ==> fd_control_message(fd)[i] == 0u8,
        fd_control_message(fd)[8] == 1u8 && fd_control_message(fd)[12] == 1u8,
        forall|i: int| 9 <= i < 12 || 13 <= i < 16 || 20 <= i < 24 ==> fd_control_message(fd)[i] == 0u8,
        fd_control_message(fd)[16] == fd as u8,
        fd_control_message(fd)[17] == (fd >> 8u32) as u8,
        fd_control_message(fd)[18] == (fd >> 16u32) as u8,
        fd_control_message(fd)[19] == (fd >> 24u32) as u8,
        control_len < 16 ==> fd_in_control(control, control_len) is None,
        control.len() >= 16 && (control[8] != 1u8 || control[12] != 1u8) ==> fd_in_control(control, control_len)
            is None,
{
    lemma_int_bytes_one();
    let m = fd_control_message(fd);
    assert(m =~= seq![20u8, 0u8, 0u8, 0u8, 0u8, 0u8, 0u8, 0u8, 1u8, 0u8, 0u8, 0u8, 1u8, 0u8, 0u8,
        0u8, fd as u8, (fd >> 8u32) as u8, (fd >> 16u32) as u8, (fd >> 24u32) as u8, 0u8, 0u8, 0u8, 0u8]);
    if control.len() >= 16 && control[8] != 1u8 {
        let b0 = control[8];
        let b1 = control[9];
        let b2 = control[10];
        let b3 = control[11];
        assert((b0 + b1 * 0x100 + b2 * 0x1_0000 + b3 * 0x100_0000) as libc::c_int != 1) by (bit_vector)
            requires
                b0 != 1u8,
        ;
    }
    if control.len() >= 16 && control[12] != 1u8 {
        let b0 = control[12];
        let b1 = control[13];
        let b2 = control[14];
        let b3 = control[15];
        assert((b0 + b1 * 0x100 + b2 * 0x1_0000 + b3 * 0x100_0000) as libc::c_int != 1) by (bit_vector)
            requires
                b0 != 1u8,
        ;
    }
}

} // verus!
