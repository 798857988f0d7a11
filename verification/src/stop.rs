//! The stop signal: one flag that goes from clear to set, once.

use vstd::prelude::*;

verus! {

/// The flag that tells the workers to start no further round trip.
///
/// It starts clear, `trigger` sets it, and nothing clears it again. The view
/// of a signal is whether it is set.
///
/// The signal is a plain value that belongs to its one writer, the driver.
/// How what it holds reaches the workers on their threads is the caller's
/// business; a worker is told what was read by `WorkerEvent::StopRead`.
#[derive(Debug)]
pub struct StopSignal {
    set: bool,
}

impl View for StopSignal {
    type V = bool;

    closed spec fn view(&self) -> bool {
        self.set
    }
}

impl StopSignal {
    /// The signal as it is after `trigger`, whatever it was before.
    pub closed spec fn triggered(self) -> StopSignal {
        StopSignal { set: true }
    }

    /// A clear signal.
    pub fn new() -> (signal: StopSignal)
        ensures
            !signal@,
    {
        StopSignal { set: false }
    }

    /// Whether the signal is set. Reading changes nothing.
    pub fn read(&self) -> (set: bool)
        ensures
            set == self@,
    {
        self.set
    }

    /// Sets the signal.
    pub fn trigger(&mut self)
        ensures
            *final(self) == old(self).triggered(),
            final(self)@,
    {
        self.set = true;
    }
}

/// Triggering is idempotent: a triggered signal is set, and triggering a
/// signal that is set changes nothing. Only the first trigger matters, so
/// whatever a run computes after one trigger it computes after several.
pub proof fn trigger_idempotent(signal: StopSignal)
    ensures
        signal.triggered()@,
        signal@ ==> signal.triggered() == signal,
        signal.triggered().triggered() == signal.triggered(),
{
}

} // verus!
