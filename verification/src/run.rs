//! The run of a network as a state machine. One run walks the phases
//! start, observe, (replay), cleanup; the events are what the engine, the
//! log relay and the interrupt signal report back, and each step says what
//! to do next. Stated and proved here: every completed run performs the
//! cleanup exactly once, whatever path it took; a non-zero container exit
//! is reported as exactly that error; an interrupt is reported as a
//! cancellation, never as a container failure.
use vstd::prelude::*;

use crate::errors::RunError;

verus! {

/// Where a run stands.
#[derive(Debug, PartialEq, Eq, Structural)]
pub enum RunPhase {
    /// Nothing issued yet.
    Idle,
    /// Start calls are in flight for every container.
    Starting,
    /// Live logs, the wait-set and the interrupt signal race.
    Observing,
    /// A waited container exited early: its logs are replayed.
    Replaying,
    /// Removal of every container, then of the network, is in flight.
    CleaningUp,
    /// The run is over; only the report remains.
    Done,
}

/// What the outside world reports back into the machine.
#[derive(Debug)]
pub enum RunEvent {
    /// The caller asked for the run.
    Launched,
    /// Every start call returned; a failure aborts straight to cleanup.
    StartFinished { failure: Option<RunError> },
    /// The log relay drained and every waited container exited cleanly, or
    /// the relay/wait pair failed with a transport error.
    ObservedQuiescent { failure: Option<RunError> },
    /// A waited container exited before the logs drained; non-zero exits
    /// carry the container-exit error.
    ObservedEarlyExit { failure: Option<RunError> },
    /// The external interrupt signal fired.
    Interrupted,
    /// The diagnostic log replay finished.
    ReplayFinished { failure: Option<RunError> },
    /// Every removal returned.
    CleanupFinished { failure: Option<RunError> },
}

/// What the driver must do after a step.
#[derive(Debug, PartialEq, Eq, Structural)]
pub enum RunAction {
    /// Issue a start for every container, concurrently.
    StartAll,
    /// Race the log relay, the wait-set and the interrupt signal.
    Observe,
    /// Re-read every container's log snapshot and present it.
    ReplayLogs,
    /// Execute the cleanup plan: remove every container, then the network.
    Cleanup,
    /// Nothing is left to do.
    Halt,
}

/// The orchestration state: the phase, the primary error (the run's
/// semantic failure reason), any cleanup failure, and whether an interrupt
/// was seen.
#[derive(Debug)]
pub struct RunMachine {
    pub phase: RunPhase,
    pub primary: Option<RunError>,
    pub cleanup_failure: Option<RunError>,
    pub interrupted: bool,
}

pub open spec fn spec_init() -> RunMachine {
    RunMachine { phase: RunPhase::Idle, primary: None, cleanup_failure: None, interrupted: false }
}

/// Which events a phase can take. Anything else is a driver fault.
pub open spec fn spec_accepts(m: RunMachine, ev: RunEvent) -> bool {
    match (m.phase, ev) {
        (RunPhase::Idle, RunEvent::Launched) => true,
        (RunPhase::Starting, RunEvent::StartFinished { .. }) => true,
        (RunPhase::Observing, RunEvent::ObservedQuiescent { .. }) => true,
        (RunPhase::Observing, RunEvent::ObservedEarlyExit { .. }) => true,
        (RunPhase::Observing, RunEvent::Interrupted) => true,
        (RunPhase::Replaying, RunEvent::ReplayFinished { .. }) => true,
        (RunPhase::CleaningUp, RunEvent::CleanupFinished { .. }) => true,
        (RunPhase::CleaningUp, RunEvent::Interrupted) => true,
        _ => false,
    }
}

/// The transition function: the next state and the action the driver owes.
pub open spec fn spec_step(m: RunMachine, ev: RunEvent) -> (RunMachine, RunAction) {
    match (m.phase, ev) {
        (RunPhase::Idle, RunEvent::Launched) => (
            RunMachine { phase: RunPhase::Starting, ..m },
            RunAction::StartAll,
        ),
        (RunPhase::Starting, RunEvent::StartFinished { failure }) => match failure {
            None => (RunMachine { phase: RunPhase::Observing, ..m }, RunAction::Observe),
            Some(e) => (
                RunMachine { phase: RunPhase::CleaningUp, primary: Some(e), ..m },
                RunAction::Cleanup,
            ),
        },
        (RunPhase::Observing, RunEvent::ObservedQuiescent { failure }) => (
            RunMachine { phase: RunPhase::CleaningUp, primary: failure, ..m },
            RunAction::Cleanup,
        ),
        (RunPhase::Observing, RunEvent::ObservedEarlyExit { failure }) => (
            RunMachine { phase: RunPhase::Replaying, primary: failure, ..m },
            RunAction::ReplayLogs,
        ),
        (RunPhase::Observing, RunEvent::Interrupted) => (
            RunMachine {
                phase: RunPhase::CleaningUp,
                primary: Some(RunError::Interrupted),
                interrupted: true,
                ..m
            },
            RunAction::Cleanup,
        ),
        (RunPhase::Replaying, RunEvent::ReplayFinished { failure }) => (
            RunMachine {
                phase: RunPhase::CleaningUp,
                primary: if m.primary is Some {
                    m.primary
                } else {
                    failure
                },
                ..m
            },
            RunAction::Cleanup,
        ),
        (RunPhase::CleaningUp, RunEvent::CleanupFinished { failure }) => (
            RunMachine { phase: RunPhase::Done, cleanup_failure: failure, ..m },
            RunAction::Halt,
        ),
        (RunPhase::CleaningUp, RunEvent::Interrupted) => (
            RunMachine { phase: RunPhase::Done, interrupted: true, ..m },
            RunAction::Halt,
        ),
        _ => (m, RunAction::Halt),
    }
}

/// How a finished run answers its caller: a primary error outranks a
/// cleanup failure; a cleanup failure surfaces only when nothing else went
/// wrong, and never silently disappears because the machine keeps both.
pub open spec fn spec_conclude(m: RunMachine) -> Result<(), RunError> {
    if m.primary is Some {
        Err(m.primary->0)
    } else if m.cleanup_failure is Some {
        Err(m.cleanup_failure->0)
    } else {
        Ok(())
    }
}

impl RunMachine {
    pub fn new() -> (r: Self)
        ensures
            r == spec_init(),
    {
        RunMachine {
            phase: RunPhase::Idle,
            primary: None,
            cleanup_failure: None,
            interrupted: false,
        }
    }

    /// Whether the machine takes this event in its current phase.
    pub fn accepts(&self, ev: &RunEvent) -> (r: bool)
        ensures
            r == spec_accepts(*self, *ev),
    {
        match (&self.phase, ev) {
            (RunPhase::Idle, RunEvent::Launched) => true,
            (RunPhase::Starting, RunEvent::StartFinished { .. }) => true,
            (RunPhase::Observing, RunEvent::ObservedQuiescent { .. }) => true,
            (RunPhase::Observing, RunEvent::ObservedEarlyExit { .. }) => true,
            (RunPhase::Observing, RunEvent::Interrupted) => true,
            (RunPhase::Replaying, RunEvent::ReplayFinished { .. }) => true,
            (RunPhase::CleaningUp, RunEvent::CleanupFinished { .. }) => true,
            (RunPhase::CleaningUp, RunEvent::Interrupted) => true,
            _ => false,
        }
    }

    /// Takes one event; returns the next state and the owed action.
    pub fn step(self, ev: RunEvent) -> (r: (Self, RunAction))
        requires
            spec_accepts(self, ev),
        ensures
            r == spec_step(self, ev),
    {
        let RunMachine { phase, primary, cleanup_failure, interrupted } = self;
        match (phase, ev) {
            (RunPhase::Idle, RunEvent::Launched) => (
                RunMachine { phase: RunPhase::Starting, primary, cleanup_failure, interrupted },
                RunAction::StartAll,
            ),
            (RunPhase::Starting, RunEvent::StartFinished { failure }) => match failure {
                None => (
                    RunMachine {
                        phase: RunPhase::Observing,
                        primary,
                        cleanup_failure,
                        interrupted,
                    },
                    RunAction::Observe,
                ),
                Some(e) => (
                    RunMachine {
                        phase: RunPhase::CleaningUp,
                        primary: Some(e),
                        cleanup_failure,
                        interrupted,
                    },
                    RunAction::Cleanup,
                ),
            },
            (RunPhase::Observing, RunEvent::ObservedQuiescent { failure }) => (
                RunMachine {
                    phase: RunPhase::CleaningUp,
                    primary: failure,
                    cleanup_failure,
                    interrupted,
                },
                RunAction::Cleanup,
            ),
            (RunPhase::Observing, RunEvent::ObservedEarlyExit { failure }) => (
                RunMachine {
                    phase: RunPhase::Replaying,
                    primary: failure,
                    cleanup_failure,
                    interrupted,
                },
                RunAction::ReplayLogs,
            ),
            (RunPhase::Observing, RunEvent::Interrupted) => (
                RunMachine {
                    phase: RunPhase::CleaningUp,
                    primary: Some(RunError::Interrupted),
                    cleanup_failure,
                    interrupted: true,
                },
                RunAction::Cleanup,
            ),
            (RunPhase::Replaying, RunEvent::ReplayFinished { failure }) => {
                let kept = match primary {
                    Some(e) => Some(e),
                    None => failure,
                };
                (
                    RunMachine {
                        phase: RunPhase::CleaningUp,
                        primary: kept,
                        cleanup_failure,
                        interrupted,
                    },
                    RunAction::Cleanup,
                )
            },
            (RunPhase::CleaningUp, RunEvent::CleanupFinished { failure }) => (
                RunMachine {
                    phase: RunPhase::Done,
                    primary,
                    cleanup_failure: failure,
                    interrupted,
                },
                RunAction::Halt,
            ),
            (RunPhase::CleaningUp, RunEvent::Interrupted) => (
                RunMachine {
                    phase: RunPhase::Done,
                    primary,
                    cleanup_failure,
                    interrupted: true,
                },
                RunAction::Halt,
            ),
            (p, _) => (
                RunMachine { phase: p, primary, cleanup_failure, interrupted },
                RunAction::Halt,
            ),
        }
    }

    /// The run's verdict, once it is over.
    pub fn conclude(self) -> (r: Result<(), RunError>)
        requires
            self.phase is Done,
        ensures
            r == spec_conclude(self),
    {
        match self.primary {
            Some(e) => Err(e),
            None => match self.cleanup_failure {
                Some(e) => Err(e),
                None => Ok(()),
            },
        }
    }
}

/// The machine after taking a whole sequence of events.
pub open spec fn spec_run(m: RunMachine, evs: Seq<RunEvent>) -> RunMachine
    decreases evs.len(),
{
    if evs.len() == 0 {
        m
    } else {
        spec_run(spec_step(m, evs.first()).0, evs.drop_first())
    }
}

/// Whether every event of the sequence is taken in the phase it arrives in.
pub open spec fn spec_trace_accepted(m: RunMachine, evs: Seq<RunEvent>) -> bool
    decreases evs.len(),
{
    evs.len() == 0 || (spec_accepts(m, evs.first()) && spec_trace_accepted(
        spec_step(m, evs.first()).0,
        evs.drop_first(),
    ))
}

/// How many times the trace tells the driver to execute the cleanup plan.
pub open spec fn spec_cleanup_count(m: RunMachine, evs: Seq<RunEvent>) -> int
    decreases evs.len(),
{
    if evs.len() == 0 {
        0
    } else {
        (if spec_step(m, evs.first()).1 is Cleanup {
            1int
        } else {
            0int
        }) + spec_cleanup_count(spec_step(m, evs.first()).0, evs.drop_first())
    }
}

/// Cleanup has been ordered (or everything is over).
pub open spec fn cleanup_ordered(m: RunMachine) -> bool {
    m.phase is CleaningUp || m.phase is Done
}

/// States a run can actually be in: no error is recorded before one was
/// reported, and no cleanup verdict exists before cleanup ran.
pub open spec fn wf(m: RunMachine) -> bool {
    match m.phase {
        RunPhase::Idle => m.primary is None && m.cleanup_failure is None,
        RunPhase::Starting => m.primary is None && m.cleanup_failure is None,
        RunPhase::Observing => m.primary is None && m.cleanup_failure is None,
        RunPhase::Replaying => m.cleanup_failure is None,
        RunPhase::CleaningUp => m.cleanup_failure is None,
        RunPhase::Done => true,
    }
}

/// One accepted step keeps the machine well formed.
pub proof fn lemma_wf_step(m: RunMachine, ev: RunEvent)
    requires
        wf(m),
        spec_accepts(m, ev),
    ensures
        wf(spec_step(m, ev).0),
{
}

/// The cleanup count of an accepted trace is exactly 1 when the trace
/// carries the machine from "cleanup not yet ordered" to "cleanup ordered",
/// and 0 otherwise: cleanup is ordered at most once, and once ordered it
/// stays ordered.
proof fn lemma_cleanup_count_general(m: RunMachine, evs: Seq<RunEvent>)
    requires
        spec_trace_accepted(m, evs),
    ensures
        spec_cleanup_count(m, evs) == if !cleanup_ordered(m) && cleanup_ordered(
            spec_run(m, evs),
        ) {
            1int
        } else {
            0int
        },
        cleanup_ordered(m) ==> cleanup_ordered(spec_run(m, evs)),
    decreases evs.len(),
{
    if evs.len() > 0 {
        lemma_cleanup_count_general(spec_step(m, evs.first()).0, evs.drop_first());
    }
}

/// Every completed run — success, container failure, or interrupt — orders
/// the cleanup exactly once.
pub proof fn lemma_run_cleans_up_exactly_once(evs: Seq<RunEvent>)
    requires
        spec_trace_accepted(spec_init(), evs),
        spec_run(spec_init(), evs).phase is Done,
    ensures
        spec_cleanup_count(spec_init(), evs) == 1,
{
    lemma_cleanup_count_general(spec_init(), evs);
}

/// Once a primary error is recorded, no later event replaces it.
pub proof fn lemma_primary_stable(m: RunMachine, evs: Seq<RunEvent>)
    requires
        wf(m),
        m.primary is Some,
        spec_trace_accepted(m, evs),
    ensures
        spec_run(m, evs).primary == m.primary,
    decreases evs.len(),
{
    if evs.len() > 0 {
        lemma_wf_step(m, evs.first());
        lemma_primary_stable(spec_step(m, evs.first()).0, evs.drop_first());
    }
}

/// If a waited container's early, failed exit ends the observation phase,
/// then however the rest of the run unfolds, the run's verdict is exactly
/// that error.
pub proof fn lemma_container_exit_reported(m: RunMachine, e: RunError, rest: Seq<RunEvent>)
    requires
        wf(m),
        m.phase is Observing,
        spec_trace_accepted(
            spec_step(m, RunEvent::ObservedEarlyExit { failure: Some(e) }).0,
            rest,
        ),
    ensures
        spec_run(
            spec_step(m, RunEvent::ObservedEarlyExit { failure: Some(e) }).0,
            rest,
        ).primary == Some(e),
        spec_conclude(
            spec_run(spec_step(m, RunEvent::ObservedEarlyExit { failure: Some(e) }).0, rest),
        ) == Err::<(), RunError>(e),
        spec_run(spec_step(m, RunEvent::ObservedEarlyExit { failure: Some(e) }).0, rest).phase
            is Done ==> spec_cleanup_count(
            spec_step(m, RunEvent::ObservedEarlyExit { failure: Some(e) }).0,
            rest,
        ) == 1,
{
    let stepped = spec_step(m, RunEvent::ObservedEarlyExit { failure: Some(e) }).0;
    lemma_wf_step(m, RunEvent::ObservedEarlyExit { failure: Some(e) });
    lemma_primary_stable(stepped, rest);
    lemma_cleanup_count_general(stepped, rest);
}

/// If the interrupt signal ends the observation phase, then however the
/// rest of the run unfolds, the run's verdict is the cancellation — never a
/// container-exit error — and the interruption stays on record.
pub proof fn lemma_interrupt_reported(m: RunMachine, rest: Seq<RunEvent>)
    requires
        wf(m),
        m.phase is Observing,
        spec_trace_accepted(spec_step(m, RunEvent::Interrupted).0, rest),
    ensures
        spec_run(spec_step(m, RunEvent::Interrupted).0, rest).primary == Some(
            RunError::Interrupted,
        ),
        spec_conclude(spec_run(spec_step(m, RunEvent::Interrupted).0, rest)) == Err::<
            (),
            RunError,
        >(RunError::Interrupted),
        !(spec_conclude(spec_run(spec_step(m, RunEvent::Interrupted).0, rest))
            matches Err(e) && e is ContainerExit),
        spec_step(m, RunEvent::Interrupted).1 is Cleanup,
        spec_cleanup_count(spec_step(m, RunEvent::Interrupted).0, rest) == 0,
{
    let stepped = spec_step(m, RunEvent::Interrupted).0;
    lemma_wf_step(m, RunEvent::Interrupted);
    lemma_primary_stable(stepped, rest);
    lemma_cleanup_count_general(stepped, rest);
}

} // verus!
