use crasher::{
    after_fork, classify_fork, dump_path, enter, exit_code, replay, report, settle, verdict,
    Action,
    CrashTarget, DumpResult, Event, ForkRole, HandledVerdict, Phase, Transition,
    EXIT_DUMP_FAILED, EXIT_DUMP_WRITTEN, EXIT_REENTERED,
};

const TARGET: CrashTarget = CrashTarget { pid: 4100, tid: 4107 };

const HANDLED: Action = Action::Report { verdict: HandledVerdict { handled: true } };

/// Feeds `events` to the machine from `phase`.
fn run(phase: Phase, events: &[Event]) -> (Phase, Vec<Option<Action>>) {
    replay(phase, &events.to_vec())
}

fn every_phase() -> Vec<Phase> {
    vec![
        Phase::Armed,
        Phase::Forking { target: TARGET },
        Phase::Capturing { child: 4200 },
        Phase::Reported,
        Phase::Creating { target: TARGET },
        Phase::Writing { target: TARGET },
        Phase::Finished { result: DumpResult::Written { bytes: 10 } },
        Phase::Finished { result: DumpResult::CreateFailed },
        Phase::Finished { result: DumpResult::SerializeFailed },
        Phase::Aborted,
    ]
}

fn every_event() -> Vec<Event> {
    vec![
        Event::Crash { target: TARGET },
        Event::Forked { ret: 0 },
        Event::Forked { ret: 4200 },
        Event::Forked { ret: -1 },
        Event::DestinationReady,
        Event::DestinationFailed,
        Event::DumpWritten { bytes: 2048 },
        Event::DumpFailed,
        Event::Waited { ret: 4200, status: 0 },
        Event::Waited { ret: -1, status: 0 },
    ]
}

#[test]
fn exit_codes_are_zero_and_one() {
    assert_eq!(EXIT_DUMP_WRITTEN, 0);
    assert_eq!(EXIT_DUMP_FAILED, 1);
    assert_eq!(EXIT_REENTERED, 67);
    assert_eq!(exit_code(DumpResult::Written { bytes: 0 }), 0);
    assert_eq!(exit_code(DumpResult::Written { bytes: usize::MAX }), 0);
    assert_eq!(exit_code(DumpResult::CreateFailed), 1);
    assert_eq!(exit_code(DumpResult::SerializeFailed), 1);
}

#[test]
fn verdict_is_handled() {
    assert_eq!(verdict(), HandledVerdict { handled: true });
}

#[test]
fn dump_path_is_fixed() {
    assert_eq!(dump_path(), "example_dump.mdmp");
    assert_eq!(dump_path().len(), 17);
}

#[test]
fn fork_return_values_are_classified() {
    assert_eq!(classify_fork(0), ForkRole::Helper);
    assert_eq!(classify_fork(1), ForkRole::Parent { child: 1 });
    assert_eq!(classify_fork(4200), ForkRole::Parent { child: 4200 });
    assert_eq!(classify_fork(i32::MAX), ForkRole::Parent { child: i32::MAX });
    assert_eq!(classify_fork(-1), ForkRole::Failed);
    assert_eq!(classify_fork(i32::MIN), ForkRole::Failed);
}

#[test]
fn first_entry_forks() {
    let t = enter(Phase::Armed, TARGET);
    assert_eq!(t, Transition { next: Phase::Forking { target: TARGET }, action: Action::Fork });
    assert_eq!(Phase::Armed.step(Event::Crash { target: TARGET }), Some(t));
}

#[test]
fn second_entry_terminates_at_once() {
    for phase in every_phase() {
        if phase == Phase::Armed {
            continue;
        }
        let expected = Transition { next: Phase::Aborted, action: Action::Exit { code: 67 } };
        assert_eq!(enter(phase, TARGET), expected);
        assert_eq!(phase.step(Event::Crash { target: TARGET }), Some(expected));
    }
}

#[test]
fn after_fork_splits_the_roles() {
    assert_eq!(
        after_fork(TARGET, 0),
        Transition { next: Phase::Creating { target: TARGET }, action: Action::CreateFile }
    );
    assert_eq!(
        after_fork(TARGET, 4200),
        Transition { next: Phase::Capturing { child: 4200 }, action: Action::Wait { child: 4200 } }
    );
    assert_eq!(after_fork(TARGET, -1), Transition { next: Phase::Reported, action: HANDLED });
}

#[test]
fn report_and_settle() {
    assert_eq!(report(), Transition { next: Phase::Reported, action: HANDLED });
    assert_eq!(
        settle(DumpResult::Written { bytes: 5 }),
        Transition {
            next: Phase::Finished { result: DumpResult::Written { bytes: 5 } },
            action: Action::Exit { code: 0 },
        }
    );
    assert_eq!(
        settle(DumpResult::CreateFailed),
        Transition {
            next: Phase::Finished { result: DumpResult::CreateFailed },
            action: Action::Exit { code: 1 },
        }
    );
    assert_eq!(
        settle(DumpResult::SerializeFailed),
        Transition {
            next: Phase::Finished { result: DumpResult::SerializeFailed },
            action: Action::Exit { code: 1 },
        }
    );
}

#[test]
fn crashing_process_forks_waits_and_reports() {
    let events = [
        Event::Crash { target: TARGET },
        Event::Forked { ret: 4200 },
        Event::Waited { ret: 4200, status: 0 },
    ];
    let (phase, actions) = run(Phase::Armed, &events);
    assert_eq!(phase, Phase::Reported);
    assert_eq!(
        actions,
        vec![Some(Action::Fork), Some(Action::Wait { child: 4200 }), Some(HANDLED)]
    );
}

#[test]
fn helper_writes_the_dump_of_the_crashed_process() {
    // The helper is a copy of the crashing process taken while it was forking.
    let events = [
        Event::Crash { target: TARGET },
        Event::Forked { ret: 0 },
        Event::DestinationReady,
        Event::DumpWritten { bytes: 2048 },
    ];
    let (phase, actions) = run(Phase::Armed, &events);
    assert_eq!(phase, Phase::Finished { result: DumpResult::Written { bytes: 2048 } });
    assert_eq!(
        actions,
        vec![
            Some(Action::Fork),
            Some(Action::CreateFile),
            Some(Action::WriteDump { pid: 4100, tid: 4107 }),
            Some(Action::Exit { code: 0 }),
        ]
    );
}

#[test]
fn helper_fails_when_the_file_cannot_be_created() {
    let events = [Event::Forked { ret: 0 }, Event::DestinationFailed];
    let (phase, actions) = run(Phase::Forking { target: TARGET }, &events);
    assert_eq!(phase, Phase::Finished { result: DumpResult::CreateFailed });
    assert_eq!(actions, vec![Some(Action::CreateFile), Some(Action::Exit { code: 1 })]);
    // The writer's events are no longer expected.
    assert_eq!(phase.step(Event::DumpWritten { bytes: 1 }), None);
    assert_eq!(phase.step(Event::DumpFailed), None);
}

#[test]
fn helper_fails_when_the_writer_fails() {
    let events = [Event::Forked { ret: 0 }, Event::DestinationReady, Event::DumpFailed];
    let (phase, actions) = run(Phase::Forking { target: TARGET }, &events);
    assert_eq!(phase, Phase::Finished { result: DumpResult::SerializeFailed });
    assert_eq!(
        actions,
        vec![
            Some(Action::CreateFile),
            Some(Action::WriteDump { pid: 4100, tid: 4107 }),
            Some(Action::Exit { code: 1 }),
        ]
    );
}

#[test]
fn failed_fork_reports_without_capture() {
    let events = [Event::Crash { target: TARGET }, Event::Forked { ret: -1 }];
    let (phase, actions) = run(Phase::Armed, &events);
    assert_eq!(phase, Phase::Reported);
    assert_eq!(actions, vec![Some(Action::Fork), Some(HANDLED)]);
}

#[test]
fn verdict_does_not_depend_on_the_helper() {
    // Exit status 1 of the helper is 256 as a wait status; a failed wait
    // returns -1.
    for (ret, status) in [(4200, 0), (4200, 256), (4200, 11), (-1, 0), (0, 0), (7, -3)] {
        let t = Phase::Capturing { child: 4200 }.step(Event::Waited { ret, status });
        assert_eq!(t, Some(Transition { next: Phase::Reported, action: HANDLED }));
    }
}

#[test]
fn report_comes_only_after_the_wait_returned() {
    // Whatever else happens while the helper runs, nothing but the return of
    // the wait makes the crashing process report.
    let events = [
        Event::Crash { target: TARGET },
        Event::Forked { ret: 4200 },
        Event::DestinationReady,
        Event::DumpWritten { bytes: 1 },
        Event::Forked { ret: -1 },
        Event::DumpFailed,
    ];
    let (phase, actions) = run(Phase::Armed, &events);
    assert_eq!(phase, Phase::Capturing { child: 4200 });
    assert_eq!(
        actions,
        vec![Some(Action::Fork), Some(Action::Wait { child: 4200 }), None, None, None, None]
    );
    assert_eq!(phase.step(Event::Waited { ret: 4200, status: 0 }).map(|t| t.action), Some(HANDLED));
}

#[test]
fn one_fatal_event_forks_once() {
    let events = [
        Event::Waited { ret: 1, status: 0 },
        Event::Crash { target: TARGET },
        Event::Forked { ret: 4200 },
        Event::Forked { ret: 4300 },
        Event::Waited { ret: 4200, status: 0 },
    ];
    let (_, actions) = run(Phase::Armed, &events);
    let forks = actions.iter().filter(|a| **a == Some(Action::Fork)).count();
    assert_eq!(forks, 1);
    assert_eq!(actions[1], Some(Action::Fork));
    // The second return value is not expected: there was one duplication.
    assert_eq!(actions[3], None);
}

#[test]
fn second_fatal_event_never_forks_again() {
    let other = CrashTarget { pid: 4100, tid: 4111 };
    let events = [
        Event::Crash { target: TARGET },
        Event::Crash { target: other },
        Event::Forked { ret: 0 },
    ];
    let (phase, actions) = run(Phase::Armed, &events);
    assert_eq!(phase, Phase::Aborted);
    assert_eq!(actions, vec![Some(Action::Fork), Some(Action::Exit { code: 67 }), None]);
}

#[test]
fn crashing_process_is_never_asked_to_write() {
    // Every run of three events in which the duplication never returned zero.
    let events: Vec<Event> =
        every_event().into_iter().filter(|e| *e != Event::Forked { ret: 0 }).collect();
    for a in &events {
        for b in &events {
            for c in &events {
                let (_, actions) = run(Phase::Armed, &[*a, *b, *c]);
                for action in actions {
                    assert_ne!(action, Some(Action::CreateFile));
                    assert!(!matches!(action, Some(Action::WriteDump { .. })));
                }
            }
        }
    }
}

#[test]
fn events_are_expected_in_one_phase_only() {
    for phase in every_phase() {
        for event in every_event() {
            let expected = match event {
                Event::Crash { .. } => true,
                Event::Forked { .. } => matches!(phase, Phase::Forking { .. }),
                Event::DestinationReady | Event::DestinationFailed => {
                    matches!(phase, Phase::Creating { .. })
                }
                Event::DumpWritten { .. } | Event::DumpFailed => {
                    matches!(phase, Phase::Writing { .. })
                }
                Event::Waited { .. } => matches!(phase, Phase::Capturing { .. }),
            };
            assert_eq!(phase.step(event).is_some(), expected);
        }
    }
}

#[test]
fn exit_codes_name_their_cause() {
    for phase in every_phase() {
        for event in every_event() {
            if let Some(Transition { action: Action::Exit { code }, .. }) = phase.step(event) {
                match code {
                    0 => assert!(matches!(event, Event::DumpWritten { .. })),
                    1 => assert!(matches!(event, Event::DestinationFailed | Event::DumpFailed)),
                    67 => assert!(matches!(event, Event::Crash { .. })),
                    _ => panic!("unknown exit code {}", code),
                }
            }
        }
    }
}

#[test]
fn dump_is_taken_of_the_first_crash() {
    let first = CrashTarget { pid: 31, tid: 47 };
    let events =
        [Event::Crash { target: first }, Event::Forked { ret: 0 }, Event::DestinationReady];
    let (phase, actions) = run(Phase::Armed, &events);
    assert_eq!(phase, Phase::Writing { target: first });
    assert_eq!(actions[2], Some(Action::WriteDump { pid: 31, tid: 47 }));
}

#[test]
fn replay_is_stepping_event_by_event() {
    let events = every_event();
    for start in every_phase() {
        let (end, actions) = replay(start, &events);
        assert_eq!(actions.len(), events.len());
        let mut phase = start;
        for (event, action) in events.iter().zip(actions) {
            let moved = phase.step(*event);
            assert_eq!(moved.map(|t| t.action), action);
            if let Some(t) = moved {
                phase = t.next;
            }
        }
        assert_eq!(phase, end);
    }
    assert_eq!(replay(Phase::Armed, &Vec::new()), (Phase::Armed, Vec::new()));
}
