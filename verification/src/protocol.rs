//! The coordinator's state machine.

use vstd::prelude::*;
use crate::outcome::{
    exit_code, exit_code_of, verdict, DumpResult, HandledVerdict, EXIT_DUMP_FAILED,
    EXIT_DUMP_WRITTEN, EXIT_REENTERED,
};

verus! {

/// The part of a crash context that the protocol reads: whose state is to be
/// captured.
#[derive(Clone, Copy, Debug, PartialEq, Eq, Structural)]
pub struct CrashTarget {
    /// Id of the crashing process.
    pub pid: i32,
    /// Id of the thread that took the fatal event.
    pub tid: i32,
}

/// Which side of a process duplication the caller is on.
#[derive(Clone, Copy, Debug, PartialEq, Eq, Structural)]
pub enum ForkRole {
    /// The duplication returned zero: this is the new process.
    Helper,
    /// The duplication returned the id of the new process.
    Parent { child: i32 },
    /// The duplication returned a negative value: no process was created.
    Failed,
}

/// Reads the value returned by the process duplication call.
pub fn classify_fork(ret: i32) -> (role: ForkRole)
    ensures
        ret == 0 <==> role is Helper,
        ret > 0 <==> role == (ForkRole::Parent { child: ret }),
        ret < 0 <==> role is Failed,
{
    if ret == 0 {
        ForkRole::Helper
    } else if ret > 0 {
        ForkRole::Parent { child: ret }
    } else {
        ForkRole::Failed
    }
}

/// Where a process stands in a crash episode.
///
/// The crashing process moves `Armed` → `Forking` → `Capturing` → `Reported`.
/// The helper starts as a copy of the crashing process in `Forking` and moves on to
/// `Creating` → `Writing` → `Finished`.
#[derive(Clone, Copy, Debug, PartialEq, Eq, Structural)]
pub enum Phase {
    /// The handler is installed and no fatal event has been seen.
    Armed,
    /// A fatal event arrived; the process is being duplicated.
    Forking { target: CrashTarget },
    /// The crashing process waits for the helper `child` to terminate.
    Capturing { child: i32 },
    /// The crashing process has given its verdict to the interceptor.
    Reported,
    /// The helper is creating the dump file.
    Creating { target: CrashTarget },
    /// The helper is running the dump writer on `target`.
    Writing { target: CrashTarget },
    /// The helper is done and terminates with the code that `result` stands for.
    Finished { result: DumpResult },
    /// The handler was entered again; the process terminates at once.
    Aborted,
}

/// What the driver has observed.
#[derive(Clone, Copy, Debug, PartialEq, Eq, Structural)]
pub enum Event {
    /// The interceptor invoked the handler for a fatal event.
    Crash { target: CrashTarget },
    /// The process duplication call returned `ret`.
    Forked { ret: i32 },
    /// The dump file was created.
    DestinationReady,
    /// The dump file could not be created.
    DestinationFailed,
    /// The dump writer succeeded with a dump of `bytes` bytes.
    DumpWritten { bytes: usize },
    /// The dump writer failed.
    DumpFailed,
    /// The wait for the helper returned `ret` and left `status`.
    Waited { ret: i32, status: i32 },
}

/// What the driver is to do next.
#[derive(Clone, Copy, Debug, PartialEq, Eq, Structural)]
pub enum Action {
    /// Duplicate the process and report the call's return value.
    Fork,
    /// Block until the process `child` has terminated.
    Wait { child: i32 },
    /// Return `verdict` to the interceptor; the episode is over.
    Report { verdict: HandledVerdict },
    /// Create the dump file.
    CreateFile,
    /// Run the dump writer on process `pid` and thread `tid`, with the crash
    /// context of this episode, into the dump file.
    WriteDump { pid: i32, tid: i32 },
    /// Terminate this process with `code`, without normal teardown.
    Exit { code: i32 },
}

/// The characters of the dump file's path.
pub open spec fn dump_path_chars() -> Seq<char> {
    "example_dump.mdmp"@
}

/// The path of the dump file, relative to the working directory of the
/// crashing process. It is the same for every crash.
pub fn dump_path() -> (path: &'static str)
    ensures
        path@ == dump_path_chars(),
        path@.len() == 17,
{
    proof {
        reveal_strlit("example_dump.mdmp");
    }
    "example_dump.mdmp"
}

/// One move of the state machine.
#[derive(Clone, Copy, Debug, PartialEq, Eq, Structural)]
pub struct Transition {
    /// The phase after the event.
    pub next: Phase,
    /// What the event calls for.
    pub action: Action,
}

/// The verdict carried by every report.
pub open spec fn handled() -> Action {
    Action::Report { verdict: HandledVerdict { handled: true } }
}

/// The move that `event` causes in `phase`, if `phase` expects the event.
///
/// A fatal event is expected in every phase: outside `Armed` it is a second
/// entry into the handler and ends the process. Every other event is expected
/// in the one phase whose action asked for it.
pub open spec fn transition(phase: Phase, event: Event) -> Option<Transition> {
    match (phase, event) {
        (Phase::Armed, Event::Crash { target }) => Some(
            Transition { next: Phase::Forking { target }, action: Action::Fork },
        ),
        (_, Event::Crash { .. }) => Some(
            Transition { next: Phase::Aborted, action: Action::Exit { code: EXIT_REENTERED } },
        ),
        (Phase::Forking { target }, Event::Forked { ret }) => Some(
            if ret == 0 {
                Transition { next: Phase::Creating { target }, action: Action::CreateFile }
            } else if ret > 0 {
                Transition {
                    next: Phase::Capturing { child: ret },
                    action: Action::Wait { child: ret },
                }
            } else {
                Transition { next: Phase::Reported, action: handled() }
            },
        ),
        (Phase::Capturing { .. }, Event::Waited { .. }) => Some(
            Transition { next: Phase::Reported, action: handled() },
        ),
        (Phase::Creating { target }, Event::DestinationReady) => Some(
            Transition {
                next: Phase::Writing { target },
                action: Action::WriteDump { pid: target.pid, tid: target.tid },
            },
        ),
        (Phase::Creating { .. }, Event::DestinationFailed) => Some(
            Transition {
                next: Phase::Finished { result: DumpResult::CreateFailed },
                action: Action::Exit { code: EXIT_DUMP_FAILED },
            },
        ),
        (Phase::Writing { .. }, Event::DumpWritten { bytes }) => Some(
            Transition {
                next: Phase::Finished { result: DumpResult::Written { bytes } },
                action: Action::Exit { code: EXIT_DUMP_WRITTEN },
            },
        ),
        (Phase::Writing { .. }, Event::DumpFailed) => Some(
            Transition {
                next: Phase::Finished { result: DumpResult::SerializeFailed },
                action: Action::Exit { code: EXIT_DUMP_FAILED },
            },
        ),
        _ => None,
    }
}

/// The move that ends the helper with `result`.
pub open spec fn finish(result: DumpResult) -> Transition {
    Transition {
        next: Phase::Finished { result },
        action: Action::Exit { code: exit_code_of(result) as i32 },
    }
}

/// Entry into the handler: the first entry starts the capture, any later one
/// ends the process.
pub fn enter(phase: Phase, target: CrashTarget) -> (t: Transition)
    ensures
        Some(t) == transition(phase, Event::Crash { target }),
        phase is Armed ==> t.action is Fork && t.next == (Phase::Forking { target }),
        !(phase is Armed) ==> t.action == (Action::Exit { code: EXIT_REENTERED }) && t.next
            is Aborted,
{
    match phase {
        Phase::Armed => Transition { next: Phase::Forking { target }, action: Action::Fork },
        _ => Transition { next: Phase::Aborted, action: Action::Exit { code: EXIT_REENTERED } },
    }
}

/// The move after the process duplication returned `ret` in an episode about
/// `target`: the helper goes on to create the dump file, the crashing process
/// waits for the helper, and where no helper exists it reports at once.
pub fn after_fork(target: CrashTarget, ret: i32) -> (t: Transition)
    ensures
        Some(t) == transition(Phase::Forking { target }, Event::Forked { ret }),
        ret == 0 ==> t.action is CreateFile && t.next == (Phase::Creating { target }),
        ret > 0 ==> t.action == (Action::Wait { child: ret }) && t.next == (Phase::Capturing {
            child: ret,
        }),
        ret < 0 ==> t.action == handled() && t.next is Reported,
{
    match classify_fork(ret) {
        ForkRole::Helper => Transition {
            next: Phase::Creating { target },
            action: Action::CreateFile,
        },
        ForkRole::Parent { child } => Transition {
            next: Phase::Capturing { child },
            action: Action::Wait { child },
        },
        ForkRole::Failed => report(),
    }
}

/// The move that ends the crashing process's part: the verdict goes to the
/// interceptor.
pub fn report() -> (t: Transition)
    ensures
        t.next is Reported,
        t.action == handled(),
{
    Transition { next: Phase::Reported, action: Action::Report { verdict: verdict() } }
}

/// The move that ends the helper: it terminates with the code of `result`.
pub fn settle(result: DumpResult) -> (t: Transition)
    ensures
        t == finish(result),
        t.next == (Phase::Finished { result }),
        t.action is Exit,
        t.action->code == 0 <==> result is Written,
        t.action->code == 1 <==> !(result is Written),
{
    Transition { next: Phase::Finished { result }, action: Action::Exit { code: exit_code(result) } }
}

impl Phase {
    /// Whether `event` is expected in this phase.
    pub open spec fn expects(self, event: Event) -> bool {
        match event {
            Event::Crash { .. } => true,
            Event::Forked { .. } => self is Forking,
            Event::DestinationReady | Event::DestinationFailed => self is Creating,
            Event::DumpWritten { .. } | Event::DumpFailed => self is Writing,
            Event::Waited { .. } => self is Capturing,
        }
    }

    /// Takes one event and says what to do next and which phase follows.
    ///
    /// Returns `None`, and calls for nothing, exactly when the phase does not
    /// expect the event.
    pub fn step(self, event: Event) -> (res: Option<Transition>)
        ensures
            res == transition(self, event),
            res is Some <==> self.expects(event),
    {
        match event {
            Event::Crash { target } => Some(enter(self, target)),
            Event::Forked { ret } => match self {
                Phase::Forking { target } => Some(after_fork(target, ret)),
                _ => None,
            },
            Event::DestinationReady => match self {
                Phase::Creating { target } => Some(
                    Transition {
                        next: Phase::Writing { target },
                        action: Action::WriteDump { pid: target.pid, tid: target.tid },
                    },
                ),
                _ => None,
            },
            Event::DestinationFailed => match self {
                Phase::Creating { .. } => Some(settle(DumpResult::CreateFailed)),
                _ => None,
            },
            Event::DumpWritten { bytes } => match self {
                Phase::Writing { .. } => Some(settle(DumpResult::Written { bytes })),
                _ => None,
            },
            Event::DumpFailed => match self {
                Phase::Writing { .. } => Some(settle(DumpResult::SerializeFailed)),
                _ => None,
            },
            Event::Waited { .. } => match self {
                Phase::Capturing { .. } => Some(report()),
                _ => None,
            },
        }
    }
}

} // verus!
