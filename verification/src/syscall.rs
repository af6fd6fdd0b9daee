//! Outcomes of the UINTR system calls.
//!
//! The caller performs the raw system call and, when it fails, reads the
//! operating system's error; the functions here turn the raw return value into
//! the library's result.
use vstd::prelude::*;
use vstd::string::*;
use crate::{UintrError, UintrResult};

verus! {

/// The frame the kernel pushes for a user interrupt.
pub struct UintrFrame {
    /// Interrupt return address.
    pub rip: u64,
    /// Flags register.
    pub rflags: u64,
    /// Stack pointer.
    pub rsp: u64,
}

/// What the operating system reported about a failed call.
pub struct OsError {
    /// The error is an interruption by a signal (`EINTR`).
    pub interrupted: bool,
    /// The operating system's description of the error.
    pub description: String,
}

/// The text `"<call> failed: <description>"`.
pub open spec fn failure_text(call: Seq<char>, description: Seq<char>) -> Seq<char> {
    call + " failed: "@ + description
}

/// Builds the text `"<call> failed: <description>"`.
pub fn failure_message(call: &str, description: &String) -> (s: String)
    ensures
        s@ == failure_text(call@, description@),
{
    let s = String::from_str(call).concat(" failed: ");
    s.concat(description.as_str())
}

/// The value a system call returns, read as a C `int`.
pub open spec fn as_c_int(ret: libc::c_long) -> libc::c_int {
    ret as libc::c_int
}

/// Outcome of `uintr_register_handler`: the returned value, read as an
/// `int`, when it is not negative; otherwise a handler registration error.
pub fn register_handler_result(ret: libc::c_long, err: &OsError) -> (r: UintrResult<libc::c_int>)
    ensures
        as_c_int(ret) >= 0 ==> r == Ok::<libc::c_int, UintrError>(as_c_int(ret)),
        as_c_int(ret) < 0 ==> (r matches Err(UintrError::RegisterHandlerError(m))
            && m@ == failure_text("uintr_register_handler"@, err.description@)),
{
    let result = ret as libc::c_int;
    if result < 0 {
        Err(UintrError::RegisterHandlerError(failure_message("uintr_register_handler", &err.description)))
    } else {
        Ok(result)
    }
}

/// Outcome of `uintr_create_fd`: the new descriptor, read as an `int`, when
/// it is not negative; otherwise a descriptor creation error.
pub fn create_fd_result(ret: libc::c_long, err: &OsError) -> (r: UintrResult<libc::c_int>)
    ensures
        as_c_int(ret) >= 0 ==> r == Ok::<libc::c_int, UintrError>(as_c_int(ret)),
        as_c_int(ret) < 0 ==> (r matches Err(UintrError::CreateFdError(m))
            && m@ == failure_text("uintr_create_fd"@, err.description@)),
{
    let result = ret as libc::c_int;
    if result < 0 {
        Err(UintrError::CreateFdError(failure_message("uintr_create_fd", &err.description)))
    } else {
        Ok(result)
    }
}

/// Outcome of `uintr_register_sender`: the sender's UIPI index, read as an
/// `int`, when it is not negative; otherwise a sender registration error.
pub fn register_sender_result(ret: libc::c_long, err: &OsError) -> (r: UintrResult<libc::c_int>)
    ensures
        as_c_int(ret) >= 0 ==> r == Ok::<libc::c_int, UintrError>(as_c_int(ret)),
        as_c_int(ret) < 0 ==> (r matches Err(UintrError::RegisterSenderError(m))
            && m@ == failure_text("uintr_register_sender"@, err.description@)),
{
    let result = ret as libc::c_int;
    if result < 0 {
        Err(UintrError::RegisterSenderError(failure_message("uintr_register_sender", &err.description)))
    } else {
        Ok(result)
    }
}

/// Outcome of `uintr_unregister_handler`: the returned value, read as an
/// `int`, when it is not negative; otherwise a system call error.
pub fn unregister_handler_result(ret: libc::c_long, err: &OsError) -> (r: UintrResult<libc::c_int>)
    ensures
        as_c_int(ret) >= 0 ==> r == Ok::<libc::c_int, UintrError>(as_c_int(ret)),
        as_c_int(ret) < 0 ==> (r matches Err(UintrError::SyscallError(m))
            && m@ == failure_text("uintr_unregister_handler"@, err.description@)),
{
    let result = ret as libc::c_int;
    if result < 0 {
        Err(UintrError::SyscallError(failure_message("uintr_unregister_handler", &err.description)))
    } else {
        Ok(result)
    }
}

/// Outcome of `uintr_unregister_sender`: the returned value, read as an
/// `int`, when it is not negative; otherwise a system call error.
pub fn unregister_sender_result(ret: libc::c_long, err: &OsError) -> (r: UintrResult<libc::c_int>)
    ensures
        as_c_int(ret) >= 0 ==> r == Ok::<libc::c_int, UintrError>(as_c_int(ret)),
        as_c_int(ret) < 0 ==> (r matches Err(UintrError::SyscallError(m))
            && m@ == failure_text("uintr_unregister_sender"@, err.description@)),
{
    let result = ret as libc::c_int;
    if result < 0 {
        Err(UintrError::SyscallError(failure_message("uintr_unregister_sender", &err.description)))
    } else {
        Ok(result)
    }
}

/// Outcome of `uintr_wait`: success when the call returned a non-negative
/// value or was interrupted by a signal; otherwise a system call error.
pub fn wait_result(ret: libc::c_long, err: &OsError) -> (r: UintrResult<()>)
    ensures
        (ret >= 0 || err.interrupted) ==> r == Ok::<(), UintrError>(()),
        (ret < 0 && !err.interrupted) ==> (r matches Err(UintrError::SyscallError(m))
            && m@ == failure_text("uintr_wait"@, err.description@)),
{
    if ret < 0 {
        if err.interrupted {
            Ok(())
        } else {
            Err(UintrError::SyscallError(failure_message("uintr_wait", &err.description)))
        }
    } else {
        Ok(())
    }
}

/// The index to hand `senduipi` for a registered sender: the UIPI index when
/// it is not negative; a negative index means no sender was registered.
pub fn notify_index(uipi_index: libc::c_int) -> (r: UintrResult<u64>)
    ensures
        uipi_index >= 0 ==> r == Ok::<u64, UintrError>(uipi_index as u64),
        uipi_index < 0 ==> r == Err::<u64, UintrError>(UintrError::NotInitialized),
{
    if uipi_index < 0 {
        Err(UintrError::NotInitialized)
    } else {
        Ok(uipi_index as u64)
    }
}


/// A failure message names the call first and ends with the operating
/// system's description, joined by `" failed: "`.
pub proof fn law_failure_text_shape(call: Seq<char>, description: Seq<char>)
    ensures
        failure_text(call, description).len() == call.len() + 9 + description.len(),
        failure_text(call, description).subrange(0, call.len() as int) == call,
        failure_text(call, description).subrange(call.len() as int, (call.len() + 9) as int) == " failed: "@,
        failure_text(call, description).subrange(
            (call.len() + 9) as int,
            failure_text(call, description).len() as int,
        ) == description,
{
    reveal_strlit(" failed: ");
    let t = failure_text(call, description);
    assert(t.subrange(0, call.len() as int) =~= call);
    assert(t.subrange(call.len() as int, (call.len() + 9) as int) =~= " failed: "@);
    assert(t.subrange((call.len() + 9) as int, t.len() as int) =~= description);
}

} // verus!
