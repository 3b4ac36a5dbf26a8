//! Whole crash episodes: what holds of every sequence of events that a
//! process can feed to the state machine.

use vstd::prelude::*;
use crate::outcome::{EXIT_DUMP_FAILED, EXIT_DUMP_WRITTEN, EXIT_REENTERED};
use crate::protocol::{handled, transition, Action, CrashTarget, Event, Phase};

verus! {

/// The phase that `events`, taken in order, lead to from `phase`. An event
/// that a phase does not expect leaves the phase as it is.
pub open spec fn phase_after(phase: Phase, events: Seq<Event>) -> Phase
    decreases events.len(),
{
    if events.len() == 0 {
        phase
    } else {
        let before = phase_after(phase, events.drop_last());
        match transition(before, events.last()) {
            Some(t) => t.next,
            None => before,
        }
    }
}

/// The action that the event at position `i` calls for in a run of `events`
/// from `phase`; `None` where the event is not expected.
pub open spec fn action_at(phase: Phase, events: Seq<Event>, i: int) -> Option<Action> {
    match transition(phase_after(phase, events.take(i)), events[i]) {
        Some(t) => Some(t.action),
        None => None,
    }
}

/// No fatal event among the first `n` events.
pub open spec fn no_crash_before(events: Seq<Event>, n: int) -> bool {
    forall|k: int| 0 <= k < n ==> !(#[trigger] events[k] is Crash)
}

/// The duplication call never returned zero: the process that saw `events`
/// was never told that it is the new process.
pub open spec fn never_the_child(events: Seq<Event>) -> bool {
    forall|k: int| 0 <= k < events.len() ==> #[trigger] events[k] != (Event::Forked { ret: 0 })
}

/// A phase that the crashing process can be in.
pub open spec fn parent_side(phase: Phase) -> bool {
    phase is Armed || phase is Forking || phase is Capturing || phase is Reported || phase
        is Aborted
}

/// The phase after one more event is the move of that event from the phase
/// before it.
pub proof fn lemma_phase_after_next(phase: Phase, events: Seq<Event>, i: int)
    requires
        0 <= i < events.len(),
    ensures
        phase_after(phase, events.take(i + 1)) == match transition(
            phase_after(phase, events.take(i)),
            events[i],
        ) {
            Some(t) => t.next,
            None => phase_after(phase, events.take(i)),
        },
{
    assert(events.take(i + 1).drop_last() =~= events.take(i));
    assert(events.take(i + 1).last() == events[i]);
}

/// Runs `events` through the state machine from `phase`: the phase reached,
/// and for every event the action it called for.
pub fn replay(phase: Phase, events: &Vec<Event>) -> (res: (Phase, Vec<Option<Action>>))
    ensures
        res.0 == phase_after(phase, events@),
        res.1@.len() == events@.len(),
        forall|i: int| 0 <= i < events@.len() ==> res.1@[i] == action_at(phase, events@, i),
{
    let mut current = phase;
    let mut actions: Vec<Option<Action>> = Vec::new();
    let mut n: usize = 0;
    while n < events.len()
        invariant
            0 <= n <= events@.len(),
            current == phase_after(phase, events@.take(n as int)),
            actions@.len() == n,
            forall|i: int| 0 <= i < n ==> actions@[i] == action_at(phase, events@, i),
        decreases events@.len() - n,
    {
        proof {
            lemma_phase_after_next(phase, events@, n as int);
        }
        match current.step(events[n]) {
            Some(t) => {
                current = t.next;
                actions.push(Some(t.action));
            },
            None => {
                actions.push(None);
            },
        }
        n = n + 1;
    }
    proof {
        assert(events@.take(events@.len() as int) =~= events@);
    }
    (current, actions)
}

/// A process stays armed exactly as long as no fatal event has arrived.
pub proof fn lemma_armed_until_crash(events: Seq<Event>, n: int)
    requires
        0 <= n <= events.len(),
    ensures
        phase_after(Phase::Armed, events.take(n)) is Armed <==> no_crash_before(events, n),
    decreases n,
{
    if n > 0 {
        lemma_armed_until_crash(events, n - 1);
        lemma_phase_after_next(Phase::Armed, events, n - 1);
        if no_crash_before(events, n) {
            assert(no_crash_before(events, n - 1));
            assert(!(events[n - 1] is Crash));
        } else if no_crash_before(events, n - 1) {
            assert(events[n - 1] is Crash);
        }
    }
}

/// An event calls for a process duplication exactly when it is a fatal event
/// with none before it.
pub proof fn lemma_fork_is_first_crash(events: Seq<Event>, i: int)
    requires
        0 <= i < events.len(),
    ensures
        action_at(Phase::Armed, events, i) == Some(Action::Fork) <==> events[i] is Crash
            && no_crash_before(events, i),
{
    lemma_armed_until_crash(events, i);
}

/// Up to a fatal event there is an event that calls for a process duplication.
pub proof fn lemma_crash_forks(events: Seq<Event>, c: int) -> (i: int)
    requires
        0 <= c < events.len(),
        events[c] is Crash,
    ensures
        0 <= i <= c,
        action_at(Phase::Armed, events, i) == Some(Action::Fork),
    decreases c,
{
    if no_crash_before(events, c) {
        lemma_fork_is_first_crash(events, c);
        c
    } else {
        let k = choose|k: int| 0 <= k < c && events[k] is Crash;
        lemma_crash_forks(events, k)
    }
}

/// One fatal event, one helper: in every run that starts armed and holds a
/// fatal event, exactly one event calls for a process duplication.
pub proof fn law_exactly_one_fork(events: Seq<Event>, c: int)
    requires
        0 <= c < events.len(),
        events[c] is Crash,
    ensures
        exists|i: int|
            0 <= i <= c && #[trigger] action_at(Phase::Armed, events, i) == Some(Action::Fork),
        forall|i: int, j: int|
            0 <= i < events.len() && 0 <= j < events.len() && #[trigger] action_at(
                Phase::Armed,
                events,
                i,
            ) == Some(Action::Fork) && #[trigger] action_at(Phase::Armed, events, j) == Some(
                Action::Fork,
            ) ==> i == j,
{
    let first = lemma_crash_forks(events, c);
    assert forall|i: int, j: int|
        0 <= i < events.len() && 0 <= j < events.len() && #[trigger] action_at(
            Phase::Armed,
            events,
            i,
        ) == Some(Action::Fork) && #[trigger] action_at(Phase::Armed, events, j) == Some(
            Action::Fork,
        ) implies i == j by {
        lemma_fork_is_first_crash(events, i);
        lemma_fork_is_first_crash(events, j);
        if i < j {
            assert(events[i] is Crash);
        } else if j < i {
            assert(events[j] is Crash);
        }
    }
}

/// Without a fatal event nothing is ever duplicated.
pub proof fn law_no_fork_without_crash(events: Seq<Event>, i: int)
    requires
        0 <= i < events.len(),
        !(events[i] is Crash),
    ensures
        action_at(Phase::Armed, events, i) != Some(Action::Fork),
{
    lemma_fork_is_first_crash(events, i);
}

/// How far a phase is along its episode. No move ever goes back.
pub open spec fn progress(phase: Phase) -> int {
    match phase {
        Phase::Armed => 0,
        Phase::Forking { .. } => 1,
        Phase::Capturing { .. } | Phase::Creating { .. } => 2,
        Phase::Reported | Phase::Writing { .. } => 3,
        Phase::Finished { .. } => 4,
        Phase::Aborted => 5,
    }
}

/// A longer run is at least as far along as any of its beginnings.
pub proof fn lemma_progress_monotone(phase: Phase, events: Seq<Event>, m: int, n: int)
    requires
        0 <= m <= n <= events.len(),
    ensures
        progress(phase_after(phase, events.take(m))) <= progress(
            phase_after(phase, events.take(n)),
        ),
    decreases n - m,
{
    if m < n {
        lemma_progress_monotone(phase, events, m, n - 1);
        lemma_phase_after_next(phase, events, n - 1);
    }
}

/// The crashing process does none of the dump's file work: in a run in which
/// the duplication call never returned zero, no event calls for the dump file
/// to be created or for the writer to run.
pub proof fn law_parent_never_writes(phase: Phase, events: Seq<Event>, i: int)
    requires
        parent_side(phase),
        never_the_child(events),
        0 <= i < events.len(),
    ensures
        action_at(phase, events, i) != Some(Action::CreateFile),
        !(action_at(phase, events, i) matches Some(a) && a is WriteDump),
{
    lemma_stays_parent(phase, events, i);
    assert(events[i] != (Event::Forked { ret: 0 }));
}

/// A process that was never told it is the new one stays on the crashing
/// process's side of the protocol.
pub proof fn lemma_stays_parent(phase: Phase, events: Seq<Event>, n: int)
    requires
        parent_side(phase),
        never_the_child(events),
        0 <= n <= events.len(),
    ensures
        parent_side(phase_after(phase, events.take(n))),
    decreases n,
{
    if n > 0 {
        lemma_stays_parent(phase, events, n - 1);
        lemma_phase_after_next(phase, events, n - 1);
        assert(events[n - 1] != (Event::Forked { ret: 0 }));
    }
}

/// The verdict does not depend on the helper: whatever the wait returned and
/// whatever status the helper left, the crashing process reports the crash as
/// handled.
pub proof fn law_verdict_ignores_helper(child: i32, ret: i32, status: i32)
    ensures
        transition(Phase::Capturing { child }, Event::Waited { ret, status }) == Some(
            crate::protocol::Transition { next: Phase::Reported, action: handled() },
        ),
{
}

/// Every report, in whatever phase and upon whatever event, says "handled",
/// and it is given either upon the return of the wait for the helper or upon
/// a duplication that created no helper.
pub proof fn law_report_is_handled(phase: Phase, event: Event)
    requires
        transition(phase, event) matches Some(t) && t.action is Report,
    ensures
        transition(phase, event)->0.action == handled(),
        transition(phase, event)->0.next is Reported,
        (phase is Capturing && event is Waited) || (phase is Forking && event is Forked
            && event->Forked_ret < 0),
{
}

/// The crashing process reports only after the helper is gone: once an event
/// has called for the wait, a report comes later, and upon the return of that
/// wait.
pub proof fn law_report_follows_wait(events: Seq<Event>, i: int, j: int)
    requires
        0 <= i < events.len(),
        0 <= j < events.len(),
        action_at(Phase::Armed, events, i) matches Some(a) && a is Wait,
        action_at(Phase::Armed, events, j) matches Some(a) && a is Report,
    ensures
        i < j,
        events[j] is Waited,
{
    lemma_phase_after_next(Phase::Armed, events, i);
    lemma_phase_after_next(Phase::Armed, events, j);
    if j < i {
        lemma_progress_monotone(Phase::Armed, events, j + 1, i);
    } else if i < j {
        lemma_progress_monotone(Phase::Armed, events, i + 1, j);
    }
}

/// What each exit code means: zero is called for only by a written dump, one
/// only by a dump file that could not be created or a writer that failed, and
/// the re-entry code only by a fatal event outside the armed phase.
pub proof fn law_exit_codes(phase: Phase, event: Event)
    requires
        transition(phase, event) matches Some(t) && t.action is Exit,
    ensures
        ({
            let code = transition(phase, event)->0.action->code;
            &&& code == EXIT_DUMP_WRITTEN || code == EXIT_DUMP_FAILED || code == EXIT_REENTERED
            &&& code == EXIT_DUMP_WRITTEN <==> phase is Writing && event is DumpWritten
            &&& code == EXIT_DUMP_FAILED <==> (phase is Creating && event is DestinationFailed)
                || (phase is Writing && event is DumpFailed)
            &&& code == EXIT_REENTERED <==> !(phase is Armed) && event is Crash
        }),
{
}

/// The writer's outcome decides the helper's exit code: the event that
/// follows the call for the writer ends the helper with zero if the dump was
/// written and with one if the writer failed.
pub proof fn law_writer_decides_exit(phase: Phase, events: Seq<Event>, i: int)
    requires
        0 <= i,
        i + 1 < events.len(),
        action_at(phase, events, i) matches Some(a) && a is WriteDump,
    ensures
        events[i + 1] is DumpWritten ==> action_at(phase, events, i + 1) == Some(
            Action::Exit { code: EXIT_DUMP_WRITTEN },
        ),
        events[i + 1] is DumpFailed ==> action_at(phase, events, i + 1) == Some(
            Action::Exit { code: EXIT_DUMP_FAILED },
        ),
{
    lemma_phase_after_next(phase, events, i);
}

/// A dump file that cannot be created ends the helper with the failure code,
/// and the writer is never asked to run.
pub proof fn law_unwritable_destination(phase: Phase, events: Seq<Event>, i: int)
    requires
        0 <= i,
        i + 1 < events.len(),
        action_at(phase, events, i) == Some(Action::CreateFile),
        events[i + 1] is DestinationFailed,
    ensures
        action_at(phase, events, i + 1) == Some(Action::Exit { code: EXIT_DUMP_FAILED }),
        forall|k: int|
            i < k < events.len() ==> !(#[trigger] action_at(phase, events, k) matches Some(a)
                && a is WriteDump),
{
    lemma_phase_after_next(phase, events, i);
    lemma_phase_after_next(phase, events, i + 1);
    assert forall|k: int| i < k < events.len() implies !(#[trigger] action_at(phase, events, k)
        matches Some(a) && a is WriteDump) by {
        if k >= i + 2 {
            lemma_progress_monotone(phase, events, i + 2, k);
        }
    }
}

/// The dump is taken of the process and thread that crashed: the writer is
/// only ever asked for the target of the fatal event that began the episode.
pub proof fn law_dump_targets_crash(events: Seq<Event>, i: int) -> (k: int)
    requires
        0 <= i < events.len(),
        action_at(Phase::Armed, events, i) matches Some(a) && a is WriteDump,
    ensures
        0 <= k < i,
        action_at(Phase::Armed, events, k) == Some(Action::Fork),
        events[k] is Crash,
        action_at(Phase::Armed, events, i) == Some(
            Action::WriteDump {
                pid: events[k]->Crash_target.pid,
                tid: events[k]->Crash_target.tid,
            },
        ),
{
    let k = lemma_target_origin(events, i);
    lemma_fork_is_first_crash(events, k);
    k
}

/// The target that a phase carries.
pub open spec fn target_of(phase: Phase) -> Option<CrashTarget> {
    match phase {
        Phase::Forking { target } => Some(target),
        Phase::Creating { target } => Some(target),
        Phase::Writing { target } => Some(target),
        _ => None,
    }
}

/// A target carried by a phase is the target of the first fatal event.
pub proof fn lemma_target_origin(events: Seq<Event>, n: int) -> (k: int)
    requires
        0 <= n <= events.len(),
        target_of(phase_after(Phase::Armed, events.take(n))) is Some,
    ensures
        0 <= k < n,
        no_crash_before(events, k),
        events[k] == (Event::Crash {
            target: target_of(phase_after(Phase::Armed, events.take(n)))->0,
        }),
    decreases n,
{
    lemma_phase_after_next(Phase::Armed, events, n - 1);
    let before = phase_after(Phase::Armed, events.take(n - 1));
    if before is Armed {
        lemma_armed_until_crash(events, n - 1);
        n - 1
    } else {
        lemma_target_origin(events, n - 1)
    }
}

} // verus!
