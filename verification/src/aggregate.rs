//! Worker outcomes and their reduction to run-wide totals.

use vstd::prelude::*;

verus! {

/// What one worker reports when it terminates.
#[derive(Clone, Copy, Debug, PartialEq, Eq, Structural)]
pub struct WorkerOutcome {
    /// Round trips the worker completed.
    pub requests_completed: u64,
    /// Whether the worker ended on an I/O failure.
    pub failed: bool,
}

/// The run-wide totals that the summary is rendered from.
///
/// The round trips of a run are summed in `u128`: a sum of `u64` counts,
/// however many, stays within it, so that every finished run has totals.
#[derive(Clone, Copy, Debug, PartialEq, Eq, Structural)]
pub struct AggregateResult {
    /// Sum of the round trips of all workers.
    pub total_requests: u128,
    /// Number of workers that ended on an I/O failure.
    pub total_errors: u64,
    /// `total_requests` divided by the configured duration, rounded down.
    pub requests_per_second: u128,
}

/// Sum of the completed round trips over a sequence of outcomes.
pub open spec fn total_requests(outcomes: Seq<WorkerOutcome>) -> nat
    decreases outcomes.len(),
{
    if outcomes.len() == 0 {
        0
    } else {
        total_requests(outcomes.drop_last()) + outcomes.last().requests_completed as nat
    }
}

/// Number of failed outcomes in a sequence.
pub open spec fn total_errors(outcomes: Seq<WorkerOutcome>) -> nat
    decreases outcomes.len(),
{
    if outcomes.len() == 0 {
        0
    } else {
        total_errors(outcomes.drop_last()) + if outcomes.last().failed {
            1nat
        } else {
            0nat
        }
    }
}

/// There are never more failures than outcomes.
pub proof fn total_errors_bounded(outcomes: Seq<WorkerOutcome>)
    ensures
        total_errors(outcomes) <= outcomes.len(),
    decreases outcomes.len(),
{
    if outcomes.len() > 0 {
        total_errors_bounded(outcomes.drop_last());
    }
}

/// Each outcome adds at most `u64::MAX` round trips, so the round trips of
/// as many outcomes as a `Vec` can hold sum within `u128`.
pub proof fn total_requests_bounded(outcomes: Seq<WorkerOutcome>)
    ensures
        total_requests(outcomes) <= outcomes.len() * u64::MAX,
        outcomes.len() <= usize::MAX ==> total_requests(outcomes) <= u128::MAX,
    decreases outcomes.len(),
{
    if outcomes.len() > 0 {
        total_requests_bounded(outcomes.drop_last());
        assert((outcomes.len() - 1) * u64::MAX + u64::MAX == outcomes.len() * u64::MAX)
            by (nonlinear_arith);
    }
    if outcomes.len() <= usize::MAX {
        assert(outcomes.len() * u64::MAX <= u64::MAX * u64::MAX) by (nonlinear_arith)
            requires
                outcomes.len() <= u64::MAX,
        ;
        assert(u64::MAX * u64::MAX <= u128::MAX) by (nonlinear_arith);
    }
}

/// Appending one outcome adds its tally to the totals, so a reduction by
/// `Tally::combine` from left to right computes `total_requests` and
/// `total_errors`.
pub proof fn totals_of_push(outcomes: Seq<WorkerOutcome>, outcome: WorkerOutcome)
    ensures
        total_requests(outcomes.push(outcome)) == total_requests(outcomes) + Tally::of(
            outcome,
        ).requests,
        total_errors(outcomes.push(outcome)) == total_errors(outcomes) + Tally::of(outcome).errors,
{
    assert(outcomes.push(outcome).drop_last() == outcomes);
}

/// A running pair of totals: what the reduction carries from one outcome to
/// the next.
#[derive(Clone, Copy, Debug, PartialEq, Eq, Structural)]
pub struct Tally {
    /// Round trips counted so far.
    pub requests: u128,
    /// Failed workers counted so far.
    pub errors: u64,
}

impl Tally {
    /// The tally of one outcome: its round trips, and one error if it failed.
    pub open spec fn of(outcome: WorkerOutcome) -> Tally {
        Tally {
            requests: outcome.requests_completed as u128,
            errors: if outcome.failed {
                1
            } else {
                0
            },
        }
    }

    /// Whether two tallies can be combined without leaving their types.
    pub open spec fn fits_with(self, other: Tally) -> bool {
        &&& self.requests + other.requests <= u128::MAX
        &&& self.errors + other.errors <= u64::MAX
    }

    /// The tally of a single worker.
    pub fn from_outcome(outcome: WorkerOutcome) -> (tally: Tally)
        ensures
            tally == Tally::of(outcome),
    {
        Tally {
            requests: outcome.requests_completed as u128,
            errors: if outcome.failed {
                1
            } else {
                0
            },
        }
    }

    /// Pairwise summation, the step of the reduction.
    pub fn combine(self, other: Tally) -> (sum: Tally)
        requires
            self.fits_with(other),
        ensures
            sum.requests == self.requests + other.requests,
            sum.errors == self.errors + other.errors,
    {
        Tally { requests: self.requests + other.requests, errors: self.errors + other.errors }
    }

    /// Pairwise summation that reports overflow: `None` exactly when one of
    /// the two sums leaves its type.
    pub fn checked_combine(self, other: Tally) -> (sum: Option<Tally>)
        ensures
            sum is Some <==> self.fits_with(other),
            sum matches Some(t) ==> t.requests == self.requests + other.requests && t.errors
                == self.errors + other.errors,
    {
        match (self.requests.checked_add(other.requests), self.errors.checked_add(other.errors)) {
            (Some(requests), Some(errors)) => Some(Tally { requests, errors }),
            _ => None,
        }
    }
}

/// Folds the outcomes into one tally, from left to right.
pub fn tally(outcomes: &Vec<WorkerOutcome>) -> (sum: Tally)
    ensures
        sum.requests == total_requests(outcomes@),
        sum.errors == total_errors(outcomes@),
        sum.errors <= outcomes@.len(),
{
    let mut acc = Tally { requests: 0, errors: 0 };
    let mut i: usize = 0;
    while i < outcomes.len()
        invariant
            i <= outcomes.len(),
            acc.requests == total_requests(outcomes@.take(i as int)),
            acc.errors == total_errors(outcomes@.take(i as int)),
        decreases outcomes.len() - i,
    {
        proof {
            assert(outcomes@.take(i + 1) == outcomes@.take(i as int).push(outcomes@[i as int]));
            totals_of_push(outcomes@.take(i as int), outcomes@[i as int]);
            total_errors_bounded(outcomes@.take(i + 1));
            total_requests_bounded(outcomes@.take(i + 1));
        }
        acc = acc.combine(Tally::from_outcome(outcomes[i]));
        i += 1;
    }
    proof {
        assert(outcomes@.take(i as int) == outcomes@);
        total_errors_bounded(outcomes@);
    }
    acc
}

/// The totals of a finished run.
///
/// The rate is the round trips of the whole run over the configured
/// duration, not over the time that actually passed. The duration is that of
/// a valid configuration: at least one second.
pub fn aggregate(outcomes: &Vec<WorkerOutcome>, duration_seconds: u64) -> (result: AggregateResult)
    requires
        duration_seconds >= 1,
    ensures
        result.total_requests == total_requests(outcomes@),
        result.total_errors == total_errors(outcomes@),
        result.total_errors <= outcomes@.len(),
        result.requests_per_second == total_requests(outcomes@) / (duration_seconds as nat),
{
    let sum = tally(outcomes);
    AggregateResult {
        total_requests: sum.requests,
        total_errors: sum.errors,
        requests_per_second: sum.requests / (duration_seconds as u128),
    }
}

/// Taking one outcome out of a sequence takes its share out of both totals.
proof fn totals_without(outcomes: Seq<WorkerOutcome>, i: int)
    requires
        0 <= i < outcomes.len(),
    ensures
        total_requests(outcomes) == total_requests(outcomes.remove(i))
            + outcomes[i].requests_completed,
        total_errors(outcomes) == total_errors(outcomes.remove(i)) + Tally::of(outcomes[i]).errors,
    decreases outcomes.len(),
{
    if i == outcomes.len() - 1 {
        assert(outcomes.remove(i) == outcomes.drop_last());
    } else {
        totals_without(outcomes.drop_last(), i);
        assert(outcomes.remove(i).drop_last() == outcomes.drop_last().remove(i));
        assert(outcomes.remove(i).last() == outcomes.last());
    }
}

/// Reducing the same outcomes in another order gives the same totals: two
/// sequences that hold the same outcomes equally often have the same sum of
/// round trips and the same number of failures.
pub proof fn reduction_order_irrelevant(a: Seq<WorkerOutcome>, b: Seq<WorkerOutcome>)
    requires
        a.to_multiset() == b.to_multiset(),
    ensures
        total_requests(a) == total_requests(b),
        total_errors(a) == total_errors(b),
    decreases a.len(),
{
    a.to_multiset_ensures();
    b.to_multiset_ensures();
    if a.len() > 0 {
        let last = a.last();
        let rest = a.drop_last();
        assert(a[a.len() - 1] == last);
        assert(a.to_multiset().count(last) > 0);
        assert(b.to_multiset().count(last) > 0);
        assert(b.contains(last));
        let j = choose|j: int| 0 <= j < b.len() && b[j] == last;
        assert(rest == a.remove(a.len() - 1));
        reduction_order_irrelevant(rest, b.remove(j));
        totals_without(b, j);
    }
}

} // verus!
