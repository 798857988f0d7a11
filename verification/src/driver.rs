//! The benchmark driver, as a state machine.
//!
//! The caller owns the threads and the clock. It performs what the driver
//! asks for (spawn the workers, sleep, trigger the stop signal, join a
//! worker) and reports each step back; the driver keeps the order of the run
//! and collects the outcomes.

use vstd::prelude::*;
use crate::aggregate::aggregate;
use crate::aggregate::reduction_order_irrelevant;
use crate::aggregate::total_errors;
use crate::aggregate::total_errors_bounded;
use crate::aggregate::total_requests;
use crate::aggregate::total_requests_bounded;
use crate::aggregate::AggregateResult;
use crate::aggregate::WorkerOutcome;
use crate::config::BenchConfig;
use crate::config::ConfigError;

verus! {

/// Where a run stands.
#[derive(Clone, Copy, Debug, PartialEq, Eq, Structural)]
pub enum DriverPhase {
    /// Nothing has been started.
    Idle,
    /// The workers are running and the stop signal is clear.
    Running,
    /// The stop signal is set; workers are being joined.
    Stopping,
    /// Every worker has been joined.
    Done,
    /// A worker never got its connection: the run has no result.
    Aborted,
}

/// What the caller reports to the driver.
#[derive(Clone, Copy, Debug, PartialEq, Eq, Structural)]
pub enum DriverEvent {
    /// The workers have been spawned.
    WorkersSpawned,
    /// The configured duration has passed.
    DurationElapsed,
    /// The stop signal has been triggered.
    StopTriggered,
    /// The next worker has terminated, with this outcome.
    WorkerJoined(WorkerOutcome),
    /// A worker ended without an outcome: it could not connect.
    WorkerAborted,
}

/// What the driver asks the caller to do next.
#[derive(Clone, Copy, Debug, PartialEq, Eq, Structural)]
pub enum DriverAction {
    /// Spawn this many workers, numbered from 0, all on one stop signal, and
    /// report `WorkersSpawned`.
    SpawnWorkers { count: u32 },
    /// Sleep for this many seconds and report `DurationElapsed`.
    Sleep { seconds: u64 },
    /// Trigger the stop signal and report `StopTriggered`.
    TriggerStop,
    /// Wait for the worker with this number and report `WorkerJoined`, or
    /// `WorkerAborted` if it has no outcome.
    JoinWorker { index: u32 },
    /// Every outcome is in: take the result and print the summary.
    Report,
    /// The run has failed: end without a summary.
    Abort,
}

/// The state of a run as the contracts see it.
pub struct DriverState {
    /// Number of workers of the run.
    pub connection_count: nat,
    /// Seconds between the start of the run and the stop signal.
    pub duration_seconds: nat,
    /// Where the run stands.
    pub phase: DriverPhase,
    /// In `Running`: whether the duration has passed.
    pub elapsed: bool,
    /// The outcomes of the workers joined so far, in the order of joining.
    pub outcomes: Seq<WorkerOutcome>,
}

impl DriverState {
    /// What holds of every state that a run passes through.
    pub open spec fn wf(self) -> bool {
        &&& self.connection_count >= 1
        &&& self.connection_count <= u32::MAX
        &&& self.duration_seconds >= 1
        &&& self.duration_seconds <= u64::MAX
        &&& self.outcomes.len() <= self.connection_count
        &&& self.phase is Idle || self.phase is Running ==> self.outcomes.len() == 0
        &&& self.phase is Stopping ==> self.outcomes.len() < self.connection_count
        &&& self.phase is Done ==> self.outcomes.len() == self.connection_count
        &&& self.elapsed ==> !(self.phase is Idle)
    }

    /// The state before anything has been started.
    pub open spec fn initial(connection_count: nat, duration_seconds: nat) -> DriverState {
        DriverState {
            connection_count,
            duration_seconds,
            phase: DriverPhase::Idle,
            elapsed: false,
            outcomes: Seq::empty(),
        }
    }

    /// The state after an event.
    ///
    /// The run goes from `Idle` to `Running` when the workers are spawned,
    /// notes when the duration has passed, goes to `Stopping` when the stop
    /// signal is then triggered, takes one outcome for each worker joined
    /// and is `Done` with the last of them. A worker that has no outcome
    /// aborts a run that has workers left to join. Any other event changes
    /// nothing; so a second trigger of the stop signal changes nothing.
    pub open spec fn after(self, event: DriverEvent) -> DriverState {
        match (self.phase, event) {
            (DriverPhase::Idle, DriverEvent::WorkersSpawned) => DriverState {
                phase: DriverPhase::Running,
                ..self
            },
            (DriverPhase::Running, DriverEvent::DurationElapsed) => DriverState {
                elapsed: true,
                ..self
            },
            (DriverPhase::Running, DriverEvent::StopTriggered) => if self.elapsed {
                DriverState { phase: DriverPhase::Stopping, ..self }
            } else {
                self
            },
            (DriverPhase::Stopping, DriverEvent::WorkerJoined(outcome)) => DriverState {
                phase: if self.outcomes.len() + 1 == self.connection_count {
                    DriverPhase::Done
                } else {
                    DriverPhase::Stopping
                },
                outcomes: self.outcomes.push(outcome),
                ..self
            },
            (DriverPhase::Running, DriverEvent::WorkerAborted)
            | (DriverPhase::Stopping, DriverEvent::WorkerAborted) => DriverState {
                phase: DriverPhase::Aborted,
                ..self
            },
            _ => self,
        }
    }

    /// What the run waits for in its state.
    pub open spec fn pending(self) -> DriverAction {
        match self.phase {
            DriverPhase::Idle => DriverAction::SpawnWorkers { count: self.connection_count as u32 },
            DriverPhase::Running => if self.elapsed {
                DriverAction::TriggerStop
            } else {
                DriverAction::Sleep { seconds: self.duration_seconds as u64 }
            },
            DriverPhase::Stopping => DriverAction::JoinWorker { index: self.outcomes.len() as u32 },
            DriverPhase::Done => DriverAction::Report,
            DriverPhase::Aborted => DriverAction::Abort,
        }
    }

    /// The totals of the run, once every worker has been joined; `None`
    /// before that and after an abort. Every run that is `Done` has totals.
    pub open spec fn result(self) -> Option<AggregateResult> {
        if self.phase is Done {
            Some(
                AggregateResult {
                    total_requests: total_requests(self.outcomes) as u128,
                    total_errors: total_errors(self.outcomes) as u64,
                    requests_per_second: (total_requests(self.outcomes)
                        / self.duration_seconds) as u128,
                },
            )
        } else {
            None
        }
    }
}

/// The driver of one run. Its view is the state of the run.
#[derive(Debug)]
pub struct Driver {
    connection_count: u32,
    duration_seconds: u64,
    phase: DriverPhase,
    elapsed: bool,
    outcomes: Vec<WorkerOutcome>,
}

impl View for Driver {
    type V = DriverState;

    closed spec fn view(&self) -> DriverState {
        DriverState {
            connection_count: self.connection_count as nat,
            duration_seconds: self.duration_seconds as nat,
            phase: self.phase,
            elapsed: self.elapsed,
            outcomes: self.outcomes@,
        }
    }
}

impl Driver {
    /// Every driver is in a state that a run passes through.
    #[verifier::type_invariant]
    spec fn well_formed(&self) -> bool {
        self@.wf()
    }

    /// A driver for the run that a configuration describes, or the reason
    /// why the configuration cannot be run.
    pub fn new(config: &BenchConfig) -> (driver: Result<Driver, ConfigError>)
        ensures
            driver is Ok <==> config.is_valid(),
            driver matches Ok(d) ==> d@.wf() && d@ == DriverState::initial(
                config.connection_count as nat,
                config.duration_seconds as nat,
            ),
            driver matches Err(e) ==> config.validate_spec() == Err::<(), ConfigError>(e),
    {
        match config.validate() {
            Ok(()) => Ok(
                Driver {
                    connection_count: config.connection_count,
                    duration_seconds: config.duration_seconds,
                    phase: DriverPhase::Idle,
                    elapsed: false,
                    outcomes: Vec::new(),
                },
            ),
            Err(e) => Err(e),
        }
    }

    /// Where the run stands.
    pub fn phase(&self) -> (phase: DriverPhase)
        ensures
            phase == self@.phase,
    {
        self.phase
    }

    /// Number of workers joined so far.
    pub fn joined(&self) -> (count: usize)
        ensures
            count == self@.outcomes.len(),
    {
        self.outcomes.len()
    }

    /// What the caller is to do next.
    pub fn next_action(&self) -> (action: DriverAction)
        ensures
            action == self@.pending(),
            self@.wf(),
    {
        proof {
            use_type_invariant(self);
        }
        match self.phase {
            DriverPhase::Idle => DriverAction::SpawnWorkers { count: self.connection_count },
            DriverPhase::Running => if self.elapsed {
                DriverAction::TriggerStop
            } else {
                DriverAction::Sleep { seconds: self.duration_seconds }
            },
            DriverPhase::Stopping => DriverAction::JoinWorker { index: self.outcomes.len() as u32 },
            DriverPhase::Done => DriverAction::Report,
            DriverPhase::Aborted => DriverAction::Abort,
        }
    }

    /// Takes one event and answers with what the caller is to do next.
    pub fn step(&mut self, event: DriverEvent) -> (action: DriverAction)
        ensures
            final(self)@ == old(self)@.after(event),
            final(self)@.wf(),
            action == final(self)@.pending(),
    {
        proof {
            use_type_invariant(&*self);
        }
        match (self.phase, event) {
            (DriverPhase::Idle, DriverEvent::WorkersSpawned) => {
                self.phase = DriverPhase::Running;
            },
            (DriverPhase::Running, DriverEvent::DurationElapsed) => {
                self.elapsed = true;
            },
            (DriverPhase::Running, DriverEvent::StopTriggered) => {
                if self.elapsed {
                    self.phase = DriverPhase::Stopping;
                }
            },
            (DriverPhase::Stopping, DriverEvent::WorkerJoined(outcome)) => {
                let mut outcomes = Vec::new();
                std::mem::swap(&mut self.outcomes, &mut outcomes);
                outcomes.push(outcome);
                *self = Driver {
                    connection_count: self.connection_count,
                    duration_seconds: self.duration_seconds,
                    phase: if outcomes.len() == self.connection_count as usize {
                        DriverPhase::Done
                    } else {
                        DriverPhase::Stopping
                    },
                    elapsed: self.elapsed,
                    outcomes,
                };
            },
            (DriverPhase::Running, DriverEvent::WorkerAborted)
            | (DriverPhase::Stopping, DriverEvent::WorkerAborted) => {
                self.phase = DriverPhase::Aborted;
            },
            _ => {},
        }
        self.next_action()
    }

    /// The totals of the run: `Some` exactly when every worker has been
    /// joined. They are the sum of the round trips, the number of failed
    /// workers, which is never more than the run has connections, and the
    /// round trips over the configured duration.
    pub fn result(&self) -> (result: Option<AggregateResult>)
        ensures
            self@.wf(),
            result == self@.result(),
            result is Some <==> self@.phase is Done,
            result matches Some(totals) ==> {
                &&& totals.total_requests == total_requests(self@.outcomes)
                &&& totals.total_errors == total_errors(self@.outcomes)
                &&& totals.total_errors <= self@.connection_count
                &&& totals.requests_per_second == total_requests(self@.outcomes)
                    / self@.duration_seconds
            },
    {
        proof {
            use_type_invariant(self);
        }
        match self.phase {
            DriverPhase::Done => Some(aggregate(&self.outcomes, self.duration_seconds)),
            _ => None,
        }
    }
}

/// Every run starts in a well-formed state and no event leads out of them.
pub proof fn wf_is_invariant(state: DriverState, event: DriverEvent)
    requires
        state.wf(),
    ensures
        state.after(event).wf(),
        DriverState::initial(state.connection_count, state.duration_seconds).wf(),
{
}

/// A second trigger of the stop signal changes nothing: whatever the state,
/// reporting the trigger twice leaves the run where reporting it once does,
/// and so with the same result.
pub proof fn stop_trigger_idempotent(state: DriverState)
    ensures
        state.after(DriverEvent::StopTriggered).after(DriverEvent::StopTriggered) == state.after(
            DriverEvent::StopTriggered,
        ),
{
}

/// Every run that is done has totals, and they are exact: the sum of the
/// round trips of its workers, one error for each worker that failed and so
/// at most one for each connection, and the round trips over the duration.
pub proof fn done_run_has_exact_totals(state: DriverState)
    requires
        state.wf(),
        state.phase is Done,
    ensures
        state.result() matches Some(totals) && {
            &&& totals.total_requests == total_requests(state.outcomes)
            &&& totals.total_errors == total_errors(state.outcomes)
            &&& totals.total_errors <= state.connection_count
            &&& totals.requests_per_second == total_requests(state.outcomes)
                / state.duration_seconds
        },
{
    total_errors_bounded(state.outcomes);
    total_requests_bounded(state.outcomes);
    assert(total_requests(state.outcomes) / state.duration_seconds <= total_requests(
        state.outcomes,
    )) by (nonlinear_arith)
        requires
            state.duration_seconds >= 1,
    ;
}

/// The result of a run does not depend on the order in which the workers
/// were joined.
pub proof fn result_is_order_free(state: DriverState, other: DriverState)
    requires
        state.phase == other.phase,
        state.duration_seconds == other.duration_seconds,
        state.outcomes.to_multiset() == other.outcomes.to_multiset(),
    ensures
        state.result() == other.result(),
{
    reduction_order_irrelevant(state.outcomes, other.outcomes);
}

/// Once a run is done or aborted, no event changes it.
pub proof fn ended_is_final(state: DriverState, event: DriverEvent)
    requires
        state.phase is Done || state.phase is Aborted,
    ensures
        state.after(event) == state,
{
}

} // verus!
