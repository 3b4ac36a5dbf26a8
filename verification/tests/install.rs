use crasher::{crasher_install, AttachError};

#[test]
fn attached_handler_is_kept() {
    assert_eq!(crasher_install(Ok(crash_handler::CrashHandler)), Ok(()));
}

#[test]
fn second_installation_is_rejected() {
    // The interceptor allows one handler per process. A second attach is
    // refused, and the refusal is handed on as an error.
    let refused = Err(crash_handler::Error::HandlerAlreadyInstalled);
    assert_eq!(crasher_install(refused), Err(AttachError::HandlerAlreadyInstalled));
}

#[test]
fn attach_failures_keep_their_kind() {
    assert_eq!(
        crasher_install(Err(crash_handler::Error::OutOfMemory)),
        Err(AttachError::OutOfMemory)
    );
    let io = std::io::Error::from_raw_os_error(22);
    assert_eq!(crasher_install(Err(crash_handler::Error::Io(io))), Err(AttachError::Io));
}
