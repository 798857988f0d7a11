//! A connection worker, as a state machine.
//!
//! The caller owns the socket and performs what the worker asks for: read the
//! stop signal, send the request, receive the reply. After each of these it
//! hands the worker what happened, and the worker decides what comes next.

use vstd::prelude::*;
use crate::aggregate::WorkerOutcome;
use crate::payload::is_transfer_complete;
use crate::payload::round_trip_complete;
use crate::payload::transfer_complete;

verus! {

/// Where a worker stands in its loop.
#[derive(Clone, Copy, Debug, PartialEq, Eq, Structural)]
pub enum WorkerPhase {
    /// About to read the stop signal, before the next round trip.
    Polling,
    /// About to send the request.
    Sending,
    /// The request is out; about to receive the reply.
    Receiving,
    /// Ended because the stop signal was set.
    Stopped,
    /// Ended because a transfer failed.
    Failed,
}

/// What the caller reports to a worker.
#[derive(Clone, Copy, Debug, PartialEq, Eq, Structural)]
pub enum WorkerEvent {
    /// The stop signal was read, with this value.
    StopRead(bool),
    /// The send ended: the bytes it moved, or `None` for an I/O error.
    Sent(Option<usize>),
    /// The receive ended: the bytes it moved, or `None` for an I/O error.
    Received(Option<usize>),
}

/// What a worker asks the caller to do next.
#[derive(Clone, Copy, Debug, PartialEq, Eq, Structural)]
pub enum WorkerAction {
    /// Read the stop signal and report `StopRead`.
    PollStop,
    /// Send the request of this length and report `Sent`.
    Send { length: usize },
    /// Receive until this many bytes have arrived and report `Received`.
    Receive { length: usize },
    /// Stop: the worker has terminated with this outcome.
    Finish(WorkerOutcome),
}

/// One worker: its identifier, the message length, its count of round trips
/// and its phase.
#[derive(Clone, Copy, Debug, PartialEq, Eq, Structural)]
pub struct Worker {
    /// Identifies the worker in diagnostics; nothing else depends on it.
    pub id: u32,
    /// Bytes in each request and each reply.
    pub payload_length: usize,
    /// Round trips completed so far.
    pub completed: u64,
    /// Where the worker stands.
    pub phase: WorkerPhase,
}

impl Worker {
    /// Whether the worker has terminated.
    pub open spec fn finished(self) -> bool {
        self.phase is Stopped || self.phase is Failed
    }

    /// The outcome that the worker reports once it has terminated.
    pub open spec fn outcome_spec(self) -> WorkerOutcome {
        WorkerOutcome { requests_completed: self.completed, failed: self.phase is Failed }
    }

    /// What the worker waits for in its phase.
    pub open spec fn pending(self) -> WorkerAction {
        match self.phase {
            WorkerPhase::Polling => WorkerAction::PollStop,
            WorkerPhase::Sending => WorkerAction::Send { length: self.payload_length },
            WorkerPhase::Receiving => WorkerAction::Receive { length: self.payload_length },
            WorkerPhase::Stopped | WorkerPhase::Failed => WorkerAction::Finish(self.outcome_spec()),
        }
    }

    /// Whether the event completes a round trip: the worker is receiving and
    /// the reply came in full.
    pub open spec fn completes_round_trip(self, event: WorkerEvent) -> bool {
        &&& self.phase is Receiving
        &&& event matches WorkerEvent::Received(moved)
        &&& transfer_complete(self.payload_length, moved)
    }

    /// The worker after an event.
    ///
    /// A set stop signal ends the worker without failure, a clear one starts
    /// a round trip. A transfer that moved exactly `payload_length` bytes
    /// moves the worker on, and a full reply counts one round trip; any other
    /// transfer ends the worker as failed, with the count unchanged. An event
    /// that the phase does not wait for changes nothing.
    pub open spec fn after(self, event: WorkerEvent) -> Worker {
        match (self.phase, event) {
            (WorkerPhase::Polling, WorkerEvent::StopRead(set)) => Worker {
                phase: if set {
                    WorkerPhase::Stopped
                } else {
                    WorkerPhase::Sending
                },
                ..self
            },
            (WorkerPhase::Sending, WorkerEvent::Sent(moved)) => Worker {
                phase: if transfer_complete(self.payload_length, moved) {
                    WorkerPhase::Receiving
                } else {
                    WorkerPhase::Failed
                },
                ..self
            },
            (WorkerPhase::Receiving, WorkerEvent::Received(moved)) => if transfer_complete(
                self.payload_length,
                moved,
            ) {
                Worker {
                    completed: (self.completed + 1) as u64,
                    phase: WorkerPhase::Polling,
                    ..self
                }
            } else {
                Worker { phase: WorkerPhase::Failed, ..self }
            },
            _ => self,
        }
    }

    /// The worker after a sequence of events, taken in order.
    pub open spec fn after_all(self, events: Seq<WorkerEvent>) -> Worker
        decreases events.len(),
    {
        if events.len() == 0 {
            self
        } else {
            self.after(events.first()).after_all(events.drop_first())
        }
    }

    /// A worker before its first round trip: nothing counted, about to read
    /// the stop signal.
    pub open spec fn fresh(id: u32, payload_length: usize) -> Worker {
        Worker { id, payload_length, completed: 0, phase: WorkerPhase::Polling }
    }

    /// A worker before its first round trip.
    pub fn new(id: u32, payload_length: usize) -> (worker: Worker)
        ensures
            worker == Worker::fresh(id, payload_length),
    {
        Worker { id, payload_length, completed: 0, phase: WorkerPhase::Polling }
    }

    /// Whether the worker has terminated.
    pub fn is_finished(&self) -> (finished: bool)
        ensures
            finished == self.finished(),
    {
        match self.phase {
            WorkerPhase::Stopped | WorkerPhase::Failed => true,
            _ => false,
        }
    }

    /// The outcome of a worker that has terminated, `None` while it runs.
    pub fn outcome(&self) -> (outcome: Option<WorkerOutcome>)
        ensures
            outcome == if self.finished() {
                Some(self.outcome_spec())
            } else {
                None
            },
    {
        match self.phase {
            WorkerPhase::Stopped => Some(
                WorkerOutcome { requests_completed: self.completed, failed: false },
            ),
            WorkerPhase::Failed => Some(
                WorkerOutcome { requests_completed: self.completed, failed: true },
            ),
            _ => None,
        }
    }

    /// What the caller is to do next.
    pub fn next_action(&self) -> (action: WorkerAction)
        ensures
            action == self.pending(),
    {
        match self.phase {
            WorkerPhase::Polling => WorkerAction::PollStop,
            WorkerPhase::Sending => WorkerAction::Send { length: self.payload_length },
            WorkerPhase::Receiving => WorkerAction::Receive { length: self.payload_length },
            WorkerPhase::Stopped => WorkerAction::Finish(
                WorkerOutcome { requests_completed: self.completed, failed: false },
            ),
            WorkerPhase::Failed => WorkerAction::Finish(
                WorkerOutcome { requests_completed: self.completed, failed: true },
            ),
        }
    }

    /// Whether `step` may be called with this event: the count of round trips
    /// has room for the one that the event would complete.
    pub fn can_step(&self, event: WorkerEvent) -> (ok: bool)
        ensures
            ok == (self.completes_round_trip(event) ==> self.completed < u64::MAX),
    {
        match (self.phase, event) {
            (WorkerPhase::Receiving, WorkerEvent::Received(moved)) => !is_transfer_complete(
                self.payload_length,
                moved,
            ) || self.completed < u64::MAX,
            _ => true,
        }
    }

    /// Takes one event and answers with what the caller is to do next.
    pub fn step(&mut self, event: WorkerEvent) -> (action: WorkerAction)
        requires
            old(self).completes_round_trip(event) ==> old(self).completed < u64::MAX,
        ensures
            *final(self) == old(self).after(event),
            action == final(self).pending(),
    {
        match (self.phase, event) {
            (WorkerPhase::Polling, WorkerEvent::StopRead(set)) => {
                self.phase = if set {
                    WorkerPhase::Stopped
                } else {
                    WorkerPhase::Sending
                };
            },
            (WorkerPhase::Sending, WorkerEvent::Sent(moved)) => {
                self.phase = if is_transfer_complete(self.payload_length, moved) {
                    WorkerPhase::Receiving
                } else {
                    WorkerPhase::Failed
                };
            },
            (WorkerPhase::Receiving, WorkerEvent::Received(moved)) => {
                if is_transfer_complete(self.payload_length, moved) {
                    self.completed = self.completed + 1;
                    self.phase = WorkerPhase::Polling;
                } else {
                    self.phase = WorkerPhase::Failed;
                }
            },
            _ => {},
        }
        self.next_action()
    }
}

/// The workers of a run: as many as it has connections, numbered from 0 in
/// the order of spawning, so that no two have the same identifier.
pub fn spawn_workers(connection_count: u32, payload_length: usize) -> (workers: Vec<Worker>)
    ensures
        workers@.len() == connection_count,
        forall|i: int|
            0 <= i < connection_count ==> #[trigger] workers@[i] == Worker::fresh(
                i as u32,
                payload_length,
            ),
        forall|i: int, j: int|
            0 <= i < j < connection_count ==> #[trigger] workers@[i].id != #[trigger] workers@[j].id,
{
    let mut workers: Vec<Worker> = Vec::new();
    let mut id: u32 = 0;
    while id < connection_count
        invariant
            id <= connection_count,
            workers@.len() == id,
            forall|i: int|
                0 <= i < id ==> #[trigger] workers@[i] == Worker::fresh(i as u32, payload_length),
        decreases connection_count - id,
    {
        workers.push(Worker::new(id, payload_length));
        id += 1;
    }
    workers
}

/// One pass through the loop, from a clear stop signal to the end of the
/// receive: the worker counts one round trip exactly when the send and the
/// receive both moved `payload_length` bytes, and is back at the stop signal;
/// otherwise it has failed with its count unchanged.
pub proof fn round_trip_counted_iff_complete(
    worker: Worker,
    sent: Option<usize>,
    received: Option<usize>,
)
    requires
        worker.phase is Polling,
        worker.completed < u64::MAX,
    ensures
        ({
            let end = worker.after(WorkerEvent::StopRead(false)).after(
                WorkerEvent::Sent(sent),
            ).after(WorkerEvent::Received(received));
            if round_trip_complete(worker.payload_length, sent, received) {
                end.phase is Polling && end.completed == worker.completed + 1
            } else {
                end.phase is Failed && end.completed == worker.completed
            }
        }),
{
}

/// A set stop signal, read before a round trip, ends the worker without
/// failure and with the count it had.
pub proof fn stop_ends_without_failure(worker: Worker)
    requires
        worker.phase is Polling,
    ensures
        worker.after(WorkerEvent::StopRead(true)).finished(),
        worker.after(WorkerEvent::StopRead(true)).outcome_spec() == (WorkerOutcome {
            requests_completed: worker.completed,
            failed: false,
        }),
{
}

/// No event changes a worker that has terminated: its outcome is fixed, and a
/// failed worker takes no further part in the run.
pub proof fn finished_is_final(worker: Worker, event: WorkerEvent)
    requires
        worker.finished(),
    ensures
        worker.after(event) == worker,
{
}

/// An event changes neither the identifier nor the message length, and it
/// raises the count by one if it completes a round trip and leaves it alone
/// if not.
pub proof fn count_moves_by_round_trips(worker: Worker, event: WorkerEvent)
    requires
        worker.completed < u64::MAX,
    ensures
        worker.after(event).id == worker.id,
        worker.after(event).payload_length == worker.payload_length,
        worker.after(event).completed == if worker.completes_round_trip(event) {
            worker.completed + 1
        } else {
            worker.completed as int
        },
{
}

/// The stop signal is looked at between round trips only: while a transfer
/// is under way, reading the signal changes nothing, whatever it holds. A
/// worker that waits for a reply waits until the receive ends.
pub proof fn transfer_ignores_stop(worker: Worker, set: bool)
    requires
        worker.phase is Sending || worker.phase is Receiving,
    ensures
        worker.after(WorkerEvent::StopRead(set)) == worker,
{
}

/// Whether every reading of the stop signal among the events found it set.
pub open spec fn stop_is_set(events: Seq<WorkerEvent>) -> bool {
    forall|i: int|
        0 <= i < events.len() ==> (#[trigger] events[i] matches WorkerEvent::StopRead(set) ==> set)
}

/// Once the stop signal is set, a worker completes at most the round trip
/// that is under way: whatever events follow, a worker at the stop signal
/// counts nothing more, and a worker in a transfer counts at most one.
pub proof fn at_most_one_round_trip_after_stop(worker: Worker, events: Seq<WorkerEvent>)
    requires
        stop_is_set(events),
        worker.phase is Sending || worker.phase is Receiving ==> worker.completed < u64::MAX,
    ensures
        worker.after_all(events).completed >= worker.completed,
        worker.after_all(events).completed <= worker.completed + if worker.phase is Sending
            || worker.phase is Receiving {
            1int
        } else {
            0int
        },
    decreases events.len(),
{
    if events.len() > 0 {
        let rest = events.drop_first();
        assert(events[0] == events.first());
        assert forall|i: int| 0 <= i < rest.len() implies (#[trigger] rest[i] matches WorkerEvent::StopRead(
            set,
        ) ==> set) by {
            assert(rest[i] == events[i + 1]);
        }
        at_most_one_round_trip_after_stop(worker.after(events.first()), rest);
    }
}

} // verus!
