use uintr::UintrError;

#[test]
fn message_of_each_variant() {
    assert_eq!(UintrError::SyscallError("x".to_string()).message(), "System call failed: x");
    assert_eq!(UintrError::RegisterHandlerError("e".to_string()).message(), "Failed to register handler: e");
    assert_eq!(UintrError::CreateFdError("e".to_string()).message(), "Failed to create FD: e");
    assert_eq!(UintrError::RegisterSenderError("e".to_string()).message(), "Failed to register sender: e");
    assert_eq!(UintrError::SendFdError("e".to_string()).message(), "Failed to send file descriptor: e");
    assert_eq!(UintrError::RecvFdError("e".to_string()).message(), "Failed to receive file descriptor: e");
    assert_eq!(UintrError::SocketError("e".to_string()).message(), "Socket error: e");
    assert_eq!(UintrError::Timeout.message(), "Timeout");
    assert_eq!(UintrError::NotInitialized.message(), "Not initialized");
}

#[test]
fn constants_keep_their_values() {
    assert_eq!(uintr::__NR_UINTR_REGISTER_HANDLER, 471);
    assert_eq!(uintr::__NR_UINTR_UNREGISTER_HANDLER, 472);
    assert_eq!(uintr::__NR_UINTR_CREATE_FD, 473);
    assert_eq!(uintr::__NR_UINTR_REGISTER_SENDER, 474);
    assert_eq!(uintr::__NR_UINTR_UNREGISTER_SENDER, 475);
    assert_eq!(uintr::__NR_UINTR_WAIT, 476);
    assert_eq!(uintr::UINTR_HANDLER_FLAG_WAITING_ANY, 0x3000);
    assert_eq!(uintr::UINTR_WAIT_MAX_USEC, 10_000_000);
    assert_eq!(uintr::UINTR_VECTOR, 0);
}
