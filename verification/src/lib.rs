//! User-mode interrupt (UINTR) communication library.
//!
//! The library holds the decisions of a UINTR client/server pair: how raw
//! system-call results become errors, how a file descriptor travels in a
//! socket control message, the connection handshake, the interrupt token
//! registry, latency statistics and CPU affinity selection.  Everything that
//! touches the kernel, the hardware or the clock is done by the caller, who
//! hands the library plain values.
use vstd::prelude::*;
use vstd::string::*;

pub mod syscall;
pub mod connection;
pub mod benchmark;
pub mod parse;
pub mod affinity;
pub mod arguments;
pub mod interrupt;
pub mod async_wait;
pub mod session;

verus! {

/// System call number: register a UINTR interrupt handler.
pub const __NR_UINTR_REGISTER_HANDLER: libc::c_long = 471;

/// System call number: unregister the UINTR interrupt handler.
pub const __NR_UINTR_UNREGISTER_HANDLER: libc::c_long = 472;

/// System call number: create a UINTR file descriptor.
pub const __NR_UINTR_CREATE_FD: libc::c_long = 473;

/// System call number: register a UINTR sender.
pub const __NR_UINTR_REGISTER_SENDER: libc::c_long = 474;

/// System call number: unregister a UINTR sender.
pub const __NR_UINTR_UNREGISTER_SENDER: libc::c_long = 475;

/// System call number: wait for a UINTR.
pub const __NR_UINTR_WAIT: libc::c_long = 476;

/// Handler flag: wait for any interrupt.
pub const UINTR_HANDLER_FLAG_WAITING_ANY: libc::c_int = 0x3000;

/// Longest single UINTR wait, in microseconds (ten seconds).
pub const UINTR_WAIT_MAX_USEC: libc::c_long = 10_000_000;

/// The interrupt vector used by both server and client.
pub const UINTR_VECTOR: u64 = 0;

/// Errors of the library.
#[derive(Debug, Clone, PartialEq, Eq)]
pub enum UintrError {
    SyscallError(String),
    RegisterHandlerError(String),
    CreateFdError(String),
    RegisterSenderError(String),
    SendFdError(String),
    RecvFdError(String),
    SocketError(String),
    Timeout,
    NotInitialized,
}

/// Result type of the library.
pub type UintrResult<T> = Result<T, UintrError>;

/// The human-readable text of an error, as characters.
pub open spec fn error_text(e: UintrError) -> Seq<char> {
    match e {
        UintrError::SyscallError(m) => "System call failed: "@ + m@,
        UintrError::RegisterHandlerError(m) => "Failed to register handler: "@ + m@,
        UintrError::CreateFdError(m) => "Failed to create FD: "@ + m@,
        UintrError::RegisterSenderError(m) => "Failed to register sender: "@ + m@,
        UintrError::SendFdError(m) => "Failed to send file descriptor: "@ + m@,
        UintrError::RecvFdError(m) => "Failed to receive file descriptor: "@ + m@,
        UintrError::SocketError(m) => "Socket error: "@ + m@,
        UintrError::Timeout => "Timeout"@,
        UintrError::NotInitialized => "Not initialized"@,
    }
}

impl UintrError {
    /// The text that describes this error to a user.
    pub fn message(&self) -> (s: String)
        ensures
            s@ == error_text(*self),
    {
        match self {
            UintrError::SyscallError(m) => String::from_str("System call failed: ").concat(m.as_str()),
            UintrError::RegisterHandlerError(m) => String::from_str("Failed to register handler: ").concat(m.as_str()),
            UintrError::CreateFdError(m) => String::from_str("Failed to create FD: ").concat(m.as_str()),
            UintrError::RegisterSenderError(m) => String::from_str("Failed to register sender: ").concat(m.as_str()),
            UintrError::SendFdError(m) => String::from_str("Failed to send file descriptor: ").concat(m.as_str()),
            UintrError::RecvFdError(m) => String::from_str("Failed to receive file descriptor: ").concat(m.as_str()),
            UintrError::SocketError(m) => String::from_str("Socket error: ").concat(m.as_str()),
            UintrError::Timeout => String::from_str("Timeout"),
            UintrError::NotInitialized => String::from_str("Not initialized"),
        }
    }
}

} // verus!
