//! Lifecycle of one collection run.
//!
//! The caller's side performs the outside work (files, channels, the driving
//! thread) and reports each outcome as an event; this module decides what
//! comes next. At most one run exists at a time.

use vstd::prelude::*;

verus! {

/// Where a run stands.
#[derive(Debug, Clone, Copy, PartialEq, Eq, Structural)]
pub enum RunPhase {
    /// No run exists and no handle is out.
    Idle,
    /// A start was accepted; sinks and channels are being set up.
    Starting,
    /// The driving thread runs the joined pipeline; the caller holds the
    /// handle.
    Running,
    /// The pipeline ended by itself; the caller still holds the handle.
    Faulted,
    /// Cancellation was signalled; the caller waits for the thread.
    Stopping,
}

/// How the driving thread ended, as seen when it is joined.
#[derive(Debug, Clone, Copy, PartialEq, Eq, Structural)]
pub enum JoinOutcome {
    /// The pipeline was cancelled.
    Cancelled,
    /// The pipeline completed by itself, which only a fault brings about.
    Completed,
    /// The thread panicked.
    Panicked,
}

/// What the caller's side reports.
#[derive(Debug, Clone, Copy, PartialEq, Eq, Structural)]
pub enum RunEvent {
    /// `start` was called; the flag says whether the destination exists.
    StartRequested { destination_exists: bool },
    /// Both sinks were opened for exclusive creation; each flag says whether
    /// that sink could be created.
    SinksOpened { adc: bool, enc: bool },
    /// The driving thread is confirmed spawned.
    ThreadSpawned,
    /// The joined pipeline completed without having been cancelled.
    PipelineEnded,
    /// `stop` was called with the handle.
    StopRequested,
    /// The driving thread was joined.
    ThreadJoined(JoinOutcome),
}

/// Why a start yields no handle.
#[derive(Debug, Clone, Copy, PartialEq, Eq, Structural)]
pub enum Refusal {
    /// A run exists already.
    RunActive,
    /// The destination exists; nothing is overwritten.
    DestinationExists,
    /// A sink could not be created.
    SinkUnavailable,
}

/// What the log says once a run has been stopped.
#[derive(Debug, Clone, Copy, PartialEq, Eq, Structural)]
pub enum StopReport {
    /// The run was cancelled cleanly.
    Stopped,
    /// The run had failed, or its thread panicked.
    Failed,
}

/// What the caller's side is to do next.
#[derive(Debug, Clone, Copy, PartialEq, Eq, Structural)]
pub enum RunAction {
    /// Nothing: the event does not apply in this phase.
    Ignore,
    /// Return no handle from `start`.
    Refuse(Refusal),
    /// Create the destination and both sinks, exclusively, and write their
    /// headers.
    OpenSinks,
    /// Construct and launch both channels, compose the pipelines and spawn
    /// the driving thread.
    Launch,
    /// Return the handle from `start`.
    HandOutHandle,
    /// Let the thread finish; it releases the sinks and channels.
    Wind,
    /// Signal cancellation once and join the thread.
    CancelAndJoin,
    /// Log the report and return from `stop`.
    Report(StopReport),
}

/// Whether a handle is out: a run exists that only `stop` can end.
pub open spec fn handle_is_out(phase: RunPhase) -> bool {
    phase == RunPhase::Running || phase == RunPhase::Faulted
}

/// Whether the action creates, opens or writes a sink.
pub open spec fn touches_sinks(action: RunAction) -> bool {
    action == RunAction::OpenSinks
}

/// What the log says of a joined thread.
pub open spec fn report_of(outcome: JoinOutcome) -> StopReport {
    match outcome {
        JoinOutcome::Cancelled => StopReport::Stopped,
        JoinOutcome::Completed => StopReport::Failed,
        JoinOutcome::Panicked => StopReport::Failed,
    }
}

/// The phase and the action that follow an event.
pub open spec fn transition(phase: RunPhase, event: RunEvent) -> (RunPhase, RunAction) {
    match (phase, event) {
        (RunPhase::Idle, RunEvent::StartRequested { destination_exists }) => if destination_exists {
            (RunPhase::Idle, RunAction::Refuse(Refusal::DestinationExists))
        } else {
            (RunPhase::Starting, RunAction::OpenSinks)
        },
        (_, RunEvent::StartRequested { .. }) => (phase, RunAction::Refuse(Refusal::RunActive)),
        (RunPhase::Starting, RunEvent::SinksOpened { adc, enc }) => if adc && enc {
            (RunPhase::Starting, RunAction::Launch)
        } else {
            (RunPhase::Idle, RunAction::Refuse(Refusal::SinkUnavailable))
        },
        (RunPhase::Starting, RunEvent::ThreadSpawned) => (
            RunPhase::Running,
            RunAction::HandOutHandle,
        ),
        (RunPhase::Running, RunEvent::PipelineEnded) => (RunPhase::Faulted, RunAction::Wind),
        (RunPhase::Running, RunEvent::StopRequested) => (
            RunPhase::Stopping,
            RunAction::CancelAndJoin,
        ),
        (RunPhase::Faulted, RunEvent::StopRequested) => (
            RunPhase::Stopping,
            RunAction::CancelAndJoin,
        ),
        (RunPhase::Stopping, RunEvent::ThreadJoined(outcome)) => (
            RunPhase::Idle,
            RunAction::Report(report_of(outcome)),
        ),
        _ => (phase, RunAction::Ignore),
    }
}

/// The phase reached from `phase` by a sequence of events.
pub open spec fn phase_after(phase: RunPhase, events: Seq<RunEvent>) -> RunPhase
    decreases events.len(),
{
    if events.len() == 0 {
        phase
    } else {
        transition(phase_after(phase, events.drop_last()), events.last()).0
    }
}

/// The action that answers the last of a non-empty sequence of events.
pub open spec fn last_action(phase: RunPhase, events: Seq<RunEvent>) -> RunAction
    recommends
        events.len() > 0,
{
    transition(phase_after(phase, events.drop_last()), events.last()).1
}

/// Decides `report_of`.
pub fn stop_report(outcome: JoinOutcome) -> (report: StopReport)
    ensures
        report == report_of(outcome),
{
    match outcome {
        JoinOutcome::Cancelled => StopReport::Stopped,
        JoinOutcome::Completed => StopReport::Failed,
        JoinOutcome::Panicked => StopReport::Failed,
    }
}

/// Takes one event in the given phase and returns the next phase with the
/// action to perform.
pub fn step(phase: RunPhase, event: RunEvent) -> (next: (RunPhase, RunAction))
    ensures
        next == transition(phase, event),
{
    match event {
        RunEvent::StartRequested { destination_exists } => match phase {
            RunPhase::Idle => if destination_exists {
                (RunPhase::Idle, RunAction::Refuse(Refusal::DestinationExists))
            } else {
                (RunPhase::Starting, RunAction::OpenSinks)
            },
            _ => (phase, RunAction::Refuse(Refusal::RunActive)),
        },
        RunEvent::SinksOpened { adc, enc } => match phase {
            RunPhase::Starting => if adc && enc {
                (RunPhase::Starting, RunAction::Launch)
            } else {
                (RunPhase::Idle, RunAction::Refuse(Refusal::SinkUnavailable))
            },
            _ => (phase, RunAction::Ignore),
        },
        RunEvent::ThreadSpawned => match phase {
            RunPhase::Starting => (RunPhase::Running, RunAction::HandOutHandle),
            _ => (phase, RunAction::Ignore),
        },
        RunEvent::PipelineEnded => match phase {
            RunPhase::Running => (RunPhase::Faulted, RunAction::Wind),
            _ => (phase, RunAction::Ignore),
        },
        RunEvent::StopRequested => match phase {
            RunPhase::Running => (RunPhase::Stopping, RunAction::CancelAndJoin),
            RunPhase::Faulted => (RunPhase::Stopping, RunAction::CancelAndJoin),
            _ => (phase, RunAction::Ignore),
        },
        RunEvent::ThreadJoined(outcome) => match phase {
            RunPhase::Stopping => (RunPhase::Idle, RunAction::Report(stop_report(outcome))),
            _ => (phase, RunAction::Ignore),
        },
    }
}

/// While a run exists, a start is refused and changes nothing.
pub proof fn lemma_second_start_refused(phase: RunPhase, destination_exists: bool)
    requires
        phase != RunPhase::Idle,
    ensures
        transition(phase, RunEvent::StartRequested { destination_exists }) == (
            phase,
            RunAction::Refuse(Refusal::RunActive),
        ),
{
}

/// Between the hand-out of a handle and the next call of `stop`, whatever
/// else happens, the handle stays out, every start is refused, and no sink
/// is created, opened or written.
pub proof fn lemma_run_unaffected_until_stop(phase: RunPhase, events: Seq<RunEvent>)
    requires
        handle_is_out(phase),
        forall|i: int| 0 <= i < events.len() ==> events[i] != RunEvent::StopRequested,
    ensures
        handle_is_out(phase_after(phase, events)),
        events.len() > 0 ==> !touches_sinks(last_action(phase, events)),
        events.len() > 0 && events.last() is StartRequested ==> last_action(phase, events)
            == RunAction::Refuse(Refusal::RunActive) && phase_after(phase, events) == phase_after(
            phase,
            events.drop_last(),
        ),
    decreases events.len(),
{
    if events.len() > 0 {
        lemma_run_unaffected_until_stop(phase, events.drop_last());
    }
}

/// A start that targets an existing destination yields no handle, leaves
/// the system idle and creates no file.
pub proof fn lemma_existing_destination_refused()
    ensures
        transition(RunPhase::Idle, RunEvent::StartRequested { destination_exists: true }) == (
            RunPhase::Idle,
            RunAction::Refuse(Refusal::DestinationExists),
        ),
        !touches_sinks(RunAction::Refuse(Refusal::DestinationExists)),
{
}

/// Stopping a run, faulted or not, takes two steps, leaves the system idle
/// and never touches a sink; what is logged depends on how the thread
/// ended alone.
pub proof fn lemma_stop_leaves_idle(phase: RunPhase, outcome: JoinOutcome)
    requires
        handle_is_out(phase),
    ensures
        transition(phase, RunEvent::StopRequested) == (
            RunPhase::Stopping,
            RunAction::CancelAndJoin,
        ),
        transition(RunPhase::Stopping, RunEvent::ThreadJoined(outcome)) == (
            RunPhase::Idle,
            RunAction::Report(report_of(outcome)),
        ),
        !touches_sinks(RunAction::CancelAndJoin),
        !touches_sinks(RunAction::Report(report_of(outcome))),
{
}

/// A sink is touched only on an accepted start: from the idle phase, on a
/// destination that does not exist.
pub proof fn lemma_sinks_touched_only_on_start(phase: RunPhase, event: RunEvent)
    ensures
        touches_sinks(transition(phase, event).1) <==> phase == RunPhase::Idle && event
            == (RunEvent::StartRequested { destination_exists: false }),
{
}

} // verus!
