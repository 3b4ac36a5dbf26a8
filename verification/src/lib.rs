//! Crash-time capture protocol: the decisions a crash handler takes between
//! the moment a fatal event is intercepted and the moment the interceptor is
//! told that the crash has been dealt with.
//!
//! The library performs no system call itself. A driver forks, waits, creates
//! the dump file and runs the minidump writer; after each of those it reports
//! what happened as an [`Event`] and is told by [`Phase::step`] what to do next.

pub mod episode;
pub mod install;
pub mod outcome;
pub mod protocol;

pub use episode::replay;
pub use install::{crasher_install, AttachError};
pub use outcome::{
    exit_code, verdict, DumpResult, HandledVerdict, EXIT_DUMP_FAILED, EXIT_DUMP_WRITTEN,
    EXIT_REENTERED,
};
pub use protocol::{
    after_fork, classify_fork, dump_path, enter, report, settle, Action, CrashTarget, Event,
    ForkRole, Phase, Transition,
};
