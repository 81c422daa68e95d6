use scissors_console::lifecycle::{
    step, stop_report, JoinOutcome, Refusal, RunAction, RunEvent, RunPhase, StopReport,
};

const PHASES: [RunPhase; 5] = [
    RunPhase::Idle,
    RunPhase::Starting,
    RunPhase::Running,
    RunPhase::Faulted,
    RunPhase::Stopping,
];

fn events() -> Vec<RunEvent> {
    vec![
        RunEvent::StartRequested { destination_exists: false },
        RunEvent::StartRequested { destination_exists: true },
        RunEvent::SinksOpened { adc: true, enc: true },
        RunEvent::SinksOpened { adc: true, enc: false },
        RunEvent::SinksOpened { adc: false, enc: true },
        RunEvent::SinksOpened { adc: false, enc: false },
        RunEvent::ThreadSpawned,
        RunEvent::PipelineEnded,
        RunEvent::StopRequested,
        RunEvent::ThreadJoined(JoinOutcome::Cancelled),
        RunEvent::ThreadJoined(JoinOutcome::Completed),
        RunEvent::ThreadJoined(JoinOutcome::Panicked),
    ]
}

fn started() -> RunPhase {
    let (phase, action) = step(RunPhase::Idle, RunEvent::StartRequested { destination_exists: false });
    assert_eq!((phase, action), (RunPhase::Starting, RunAction::OpenSinks));
    let (phase, action) = step(phase, RunEvent::SinksOpened { adc: true, enc: true });
    assert_eq!((phase, action), (RunPhase::Starting, RunAction::Launch));
    let (phase, action) = step(phase, RunEvent::ThreadSpawned);
    assert_eq!((phase, action), (RunPhase::Running, RunAction::HandOutHandle));
    phase
}

#[test]
fn a_clean_run_goes_from_idle_to_idle() {
    let phase = started();
    let (phase, action) = step(phase, RunEvent::StopRequested);
    assert_eq!((phase, action), (RunPhase::Stopping, RunAction::CancelAndJoin));
    let (phase, action) = step(phase, RunEvent::ThreadJoined(JoinOutcome::Cancelled));
    assert_eq!((phase, action), (RunPhase::Idle, RunAction::Report(StopReport::Stopped)));
}

#[test]
fn second_start_without_stop_yields_no_handle_and_changes_nothing() {
    let phase = started();
    for destination_exists in [false, true] {
        let next = step(phase, RunEvent::StartRequested { destination_exists });
        assert_eq!(next, (RunPhase::Running, RunAction::Refuse(Refusal::RunActive)));
    }
    for phase in [RunPhase::Starting, RunPhase::Faulted, RunPhase::Stopping] {
        let next = step(phase, RunEvent::StartRequested { destination_exists: false });
        assert_eq!(next, (phase, RunAction::Refuse(Refusal::RunActive)));
    }
}

#[test]
fn start_on_an_existing_destination_yields_no_handle_and_opens_nothing() {
    let next = step(RunPhase::Idle, RunEvent::StartRequested { destination_exists: true });
    assert_eq!(next, (RunPhase::Idle, RunAction::Refuse(Refusal::DestinationExists)));
}

#[test]
fn a_sink_that_cannot_be_created_yields_no_handle() {
    for (adc, enc) in [(true, false), (false, true), (false, false)] {
        let next = step(RunPhase::Starting, RunEvent::SinksOpened { adc, enc });
        assert_eq!(next, (RunPhase::Idle, RunAction::Refuse(Refusal::SinkUnavailable)));
    }
}

#[test]
fn a_fault_leaves_the_handle_out_until_stop() {
    let phase = started();
    let (phase, action) = step(phase, RunEvent::PipelineEnded);
    assert_eq!((phase, action), (RunPhase::Faulted, RunAction::Wind));
    let (phase, action) = step(phase, RunEvent::StopRequested);
    assert_eq!((phase, action), (RunPhase::Stopping, RunAction::CancelAndJoin));
    let (phase, action) = step(phase, RunEvent::ThreadJoined(JoinOutcome::Completed));
    assert_eq!((phase, action), (RunPhase::Idle, RunAction::Report(StopReport::Failed)));
}

#[test]
fn stop_never_touches_a_sink() {
    for phase in PHASES {
        let (_, action) = step(phase, RunEvent::StopRequested);
        assert_ne!(action, RunAction::OpenSinks);
        for outcome in [JoinOutcome::Cancelled, JoinOutcome::Completed, JoinOutcome::Panicked] {
            let (_, action) = step(phase, RunEvent::ThreadJoined(outcome));
            assert_ne!(action, RunAction::OpenSinks);
        }
    }
}

#[test]
fn sinks_are_opened_only_by_an_accepted_start() {
    for phase in PHASES {
        for event in events() {
            let (_, action) = step(phase, event);
            let accepted_start = phase == RunPhase::Idle
                && event == RunEvent::StartRequested { destination_exists: false };
            assert_eq!(action == RunAction::OpenSinks, accepted_start);
        }
    }
}

#[test]
fn a_panic_in_the_driving_thread_is_reported_as_failure() {
    assert_eq!(stop_report(JoinOutcome::Panicked), StopReport::Failed);
    assert_eq!(stop_report(JoinOutcome::Completed), StopReport::Failed);
    assert_eq!(stop_report(JoinOutcome::Cancelled), StopReport::Stopped);
    let next = step(RunPhase::Stopping, RunEvent::ThreadJoined(JoinOutcome::Panicked));
    assert_eq!(next, (RunPhase::Idle, RunAction::Report(StopReport::Failed)));
}

#[test]
fn events_out_of_turn_are_ignored() {
    assert_eq!(step(RunPhase::Idle, RunEvent::StopRequested), (RunPhase::Idle, RunAction::Ignore));
    assert_eq!(step(RunPhase::Idle, RunEvent::ThreadSpawned), (RunPhase::Idle, RunAction::Ignore));
    assert_eq!(
        step(RunPhase::Idle, RunEvent::PipelineEnded),
        (RunPhase::Idle, RunAction::Ignore)
    );
    assert_eq!(
        step(RunPhase::Running, RunEvent::SinksOpened { adc: true, enc: true }),
        (RunPhase::Running, RunAction::Ignore)
    );
    assert_eq!(
        step(RunPhase::Running, RunEvent::ThreadJoined(JoinOutcome::Cancelled)),
        (RunPhase::Running, RunAction::Ignore)
    );
    assert_eq!(
        step(RunPhase::Stopping, RunEvent::StopRequested),
        (RunPhase::Stopping, RunAction::Ignore)
    );
    assert_eq!(
        step(RunPhase::Faulted, RunEvent::PipelineEnded),
        (RunPhase::Faulted, RunAction::Ignore)
    );
}

#[test]
fn a_run_can_start_again_after_stop() {
    let phase = started();
    let (phase, _) = step(phase, RunEvent::StopRequested);
    let (phase, _) = step(phase, RunEvent::ThreadJoined(JoinOutcome::Cancelled));
    let next = step(phase, RunEvent::StartRequested { destination_exists: false });
    assert_eq!(next, (RunPhase::Starting, RunAction::OpenSinks));
}

#[test]
fn handle_stays_out_whatever_happens_short_of_stop() {
    for first in [RunPhase::Running, RunPhase::Faulted] {
        let mut phase = first;
        for round in 0..3 {
            for event in events() {
                if event == RunEvent::StopRequested {
                    continue;
                }
                let (next, action) = step(phase, event);
                assert!(next == RunPhase::Running || next == RunPhase::Faulted, "round {}", round);
                assert_ne!(action, RunAction::OpenSinks);
                phase = next;
            }
        }
    }
}
