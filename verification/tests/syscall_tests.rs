use uintr::syscall::{
    create_fd_result, notify_index, register_handler_result, register_sender_result,
    unregister_handler_result, unregister_sender_result, wait_result, OsError, UintrFrame,
};
use uintr::UintrError;

fn os_error(interrupted: bool) -> OsError {
    OsError { interrupted, description: "Operation not permitted (os error 1)".to_string() }
}

#[test]
fn register_handler_success_and_failure() {
    assert_eq!(register_handler_result(0, &os_error(false)), Ok(0));
    assert_eq!(register_handler_result(7, &os_error(false)), Ok(7));
    assert_eq!(
        register_handler_result(-1, &os_error(false)),
        Err(UintrError::RegisterHandlerError(
            "uintr_register_handler failed: Operation not permitted (os error 1)".to_string()
        ))
    );
}

#[test]
fn register_handler_reads_the_return_as_c_int() {
    // 0x1_0000_0005 truncates to 5; 0x8000_0000 truncates to a negative int.
    assert_eq!(register_handler_result(0x1_0000_0005, &os_error(false)), Ok(5));
    assert!(matches!(
        register_handler_result(0x8000_0000, &os_error(false)),
        Err(UintrError::RegisterHandlerError(_))
    ));
}

#[test]
fn create_fd_outcomes() {
    assert_eq!(create_fd_result(3, &os_error(false)), Ok(3));
    assert_eq!(
        create_fd_result(-22, &os_error(false)),
        Err(UintrError::CreateFdError(
            "uintr_create_fd failed: Operation not permitted (os error 1)".to_string()
        ))
    );
}

#[test]
fn register_sender_outcomes() {
    assert_eq!(register_sender_result(2, &os_error(false)), Ok(2));
    assert_eq!(
        register_sender_result(-1, &os_error(false)),
        Err(UintrError::RegisterSenderError(
            "uintr_register_sender failed: Operation not permitted (os error 1)".to_string()
        ))
    );
}

#[test]
fn unregister_outcomes() {
    assert_eq!(unregister_handler_result(0, &os_error(false)), Ok(0));
    assert_eq!(
        unregister_handler_result(-1, &os_error(false)),
        Err(UintrError::SyscallError(
            "uintr_unregister_handler failed: Operation not permitted (os error 1)".to_string()
        ))
    );
    assert_eq!(unregister_sender_result(0, &os_error(false)), Ok(0));
    assert_eq!(
        unregister_sender_result(-1, &os_error(false)),
        Err(UintrError::SyscallError(
            "uintr_unregister_sender failed: Operation not permitted (os error 1)".to_string()
        ))
    );
}

#[test]
fn wait_treats_interruption_as_success() {
    assert_eq!(wait_result(0, &os_error(false)), Ok(()));
    assert_eq!(wait_result(-1, &os_error(true)), Ok(()));
    assert_eq!(
        wait_result(-1, &os_error(false)),
        Err(UintrError::SyscallError(
            "uintr_wait failed: Operation not permitted (os error 1)".to_string()
        ))
    );
}

#[test]
fn wait_does_not_truncate_the_return() {
    // uintr_wait compares the full long: 0x8000_0000 is positive.
    assert_eq!(wait_result(0x8000_0000, &os_error(false)), Ok(()));
}

#[test]
fn notify_index_requires_a_registered_sender() {
    assert_eq!(notify_index(0), Ok(0));
    assert_eq!(notify_index(5), Ok(5));
    assert_eq!(notify_index(-1), Err(UintrError::NotInitialized));
}

#[test]
fn frame_holds_its_registers() {
    let f = UintrFrame { rip: 1, rflags: 2, rsp: 3 };
    assert_eq!((f.rip, f.rflags, f.rsp), (1, 2, 3));
}
