//! Registration of the handler for the lifetime of the process.

use vstd::prelude::*;

verus! {

/// The interceptor's handle for an attached handler. Dropping it detaches the
/// handler.
#[verifier::external_type_specification]
#[verifier::external_body]
pub struct ExCrashHandler(crash_handler::CrashHandler);

/// The interceptor's reason for refusing to attach a handler.
#[verifier::external_type_specification]
#[verifier::external_body]
pub struct ExAttachFailure(crash_handler::Error);

/// Why the handler could not be installed.
#[derive(Clone, Copy, Debug, PartialEq, Eq, Structural)]
pub enum AttachError {
    /// No memory could be mapped for the handler's alternate stack.
    OutOfMemory,
    /// A handler is attached already; only one can be at a time.
    HandlerAlreadyInstalled,
    /// A system call failed while attaching.
    Io,
}

/// Tells the variants of `crash_handler::Error` apart. Nothing is claimed of
/// the result: the interceptor's error is opaque to the verifier.
#[verifier::external_body]
fn attach_error_kind(failure: &crash_handler::Error) -> (kind: AttachError) {
    match failure {
        crash_handler::Error::OutOfMemory => AttachError::OutOfMemory,
        crash_handler::Error::HandlerAlreadyInstalled => AttachError::HandlerAlreadyInstalled,
        crash_handler::Error::Io(_) => AttachError::Io,
    }
}

/// `std::mem::forget` takes ownership of its argument and returns without
/// running the argument's destructor. It has no result to speak of.
pub assume_specification<T>[ std::mem::forget::<T> ](t: T);

/// Completes the installation from the outcome of the attach call.
///
/// An attached handler is kept for the rest of the process's life: its handle
/// is given up without being dropped, so that nothing ever detaches it. A
/// refused attach is returned as the error it was refused with.
pub fn crasher_install(attempt: Result<crash_handler::CrashHandler, crash_handler::Error>) -> (res:
    Result<(), AttachError>)
    ensures
        attempt is Ok ==> res == Ok::<(), AttachError>(()),
        attempt is Err ==> res is Err,
{
    match attempt {
        Ok(handler) => {
            std::mem::forget(handler);
            Ok(())
        },
        Err(failure) => Err(attach_error_kind(&failure)),
    }
}

} // verus!
