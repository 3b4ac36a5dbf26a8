//! What a capture attempt ends in, and what is told to the outside about it.

use vstd::prelude::*;

verus! {

/// Exit code of the helper process when the dump was written.
pub const EXIT_DUMP_WRITTEN: i32 = 0;

/// Exit code of the helper process when the dump file could not be created or
/// the writer failed.
pub const EXIT_DUMP_FAILED: i32 = 1;

/// Exit code of a process whose crash handler is entered a second time.
pub const EXIT_REENTERED: i32 = 67;

/// How the helper's attempt to persist a minidump ended.
#[derive(Clone, Copy, Debug, PartialEq, Eq, Structural)]
pub enum DumpResult {
    /// The writer produced a dump of `bytes` bytes and it reached the file.
    Written { bytes: usize },
    /// The dump file could not be created; the writer never ran.
    CreateFailed,
    /// The file exists but the writer failed, for whatever reason.
    SerializeFailed,
}

/// The answer handed back to the interceptor once a crash episode is over.
#[derive(Clone, Copy, Debug, PartialEq, Eq, Structural)]
pub struct HandledVerdict {
    /// Whether the crash counts as handled. The interceptor then lets the
    /// platform terminate the process in its usual way.
    pub handled: bool,
}

/// The exit code that stands for a capture outcome: zero for a written dump,
/// the one failure code for every kind of failure.
pub open spec fn exit_code_of(result: DumpResult) -> int {
    if result is Written {
        EXIT_DUMP_WRITTEN as int
    } else {
        EXIT_DUMP_FAILED as int
    }
}

/// Exit code with which the helper process terminates after `result`.
pub fn exit_code(result: DumpResult) -> (code: i32)
    ensures
        code == exit_code_of(result),
        code == 0 <==> result is Written,
        code == 1 <==> !(result is Written),
{
    match result {
        DumpResult::Written { .. } => EXIT_DUMP_WRITTEN,
        DumpResult::CreateFailed => EXIT_DUMP_FAILED,
        DumpResult::SerializeFailed => EXIT_DUMP_FAILED,
    }
}

/// The verdict of every crash episode: handled, whatever became of the dump.
pub fn verdict() -> (v: HandledVerdict)
    ensures
        v.handled,
{
    HandledVerdict { handled: true }
}

} // verus!
