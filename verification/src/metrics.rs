//! Per-request execution statistics.

use vstd::prelude::*;

verus! {

/// Saturating addition on counters: a counter that would overflow pegs at
/// the largest representable value instead of wrapping.
pub open spec fn add_sat(a: u64, b: u64) -> u64 {
    if a + b > u64::MAX {
        u64::MAX
    } else {
        (a + b) as u64
    }
}

/// Counters a handler accumulates while executing and merges into a
/// caller-supplied accumulator on demand.
///
/// Merging only adds: it is the driver's obligation to merge each handler's
/// counters exactly once per task, after the task reaches a terminal state.
/// Merging the same handler twice double-counts (see
/// [`lemma_second_merge_double_counts`]).
#[derive(Debug, Clone, Copy, PartialEq, Eq, Structural)]
pub struct ExecutorMetrics {
    /// Rows the executors processed.
    pub rows_processed: u64,
    /// Scan iterator steps taken against the storage layer.
    pub scan_steps: u64,
    /// Time the request spent waiting rather than executing, in nanoseconds.
    pub wait_time_ns: u64,
}

impl ExecutorMetrics {
    /// The accumulator with every counter zero.
    pub open spec fn zero() -> ExecutorMetrics {
        (ExecutorMetrics { rows_processed: 0, scan_steps: 0, wait_time_ns: 0 })
    }

    /// `self` with `other`'s counters added on, saturating.
    pub open spec fn merged(self, other: ExecutorMetrics) -> ExecutorMetrics {
        (ExecutorMetrics {
            rows_processed: add_sat(self.rows_processed, other.rows_processed),
            scan_steps: add_sat(self.scan_steps, other.scan_steps),
            wait_time_ns: add_sat(self.wait_time_ns, other.wait_time_ns),
        })
    }

    /// An empty accumulator.
    pub fn new() -> (r: ExecutorMetrics)
        ensures
            r == ExecutorMetrics::zero(),
    {
        ExecutorMetrics { rows_processed: 0, scan_steps: 0, wait_time_ns: 0 }
    }

    /// Adds `other`'s counters into `self`, saturating. `other` is left
    /// untouched, which is exactly why merging twice double-counts.
    pub fn merge(&mut self, other: &ExecutorMetrics)
        ensures
            *final(self) == old(self).merged(*other),
    {
        self.rows_processed = self.rows_processed.saturating_add(other.rows_processed);
        self.scan_steps = self.scan_steps.saturating_add(other.scan_steps);
        self.wait_time_ns = self.wait_time_ns.saturating_add(other.wait_time_ns);
    }
}

/// Law: merging a handler's counters into an accumulator once is the single
/// intended contribution; a second merge of the same counters is detectable,
/// because every counter then sits at the once-merged value plus the
/// contribution again. Counters close enough to the saturation point to peg
/// are left out, since saturation absorbs the second contribution there.
pub proof fn lemma_second_merge_double_counts(acc: ExecutorMetrics, part: ExecutorMetrics)
    requires
        acc.rows_processed + part.rows_processed + part.rows_processed <= u64::MAX,
        acc.scan_steps + part.scan_steps + part.scan_steps <= u64::MAX,
        acc.wait_time_ns + part.wait_time_ns + part.wait_time_ns <= u64::MAX,
    ensures
        acc.merged(part).merged(part).rows_processed == acc.rows_processed
            + part.rows_processed + part.rows_processed,
        acc.merged(part).merged(part).scan_steps == acc.scan_steps + part.scan_steps
            + part.scan_steps,
        acc.merged(part).merged(part).wait_time_ns == acc.wait_time_ns
            + part.wait_time_ns + part.wait_time_ns,
{
}

/// Law: merging an empty contribution changes nothing, so handlers that track
/// no statistics leave the accumulator exactly as it was.
pub proof fn lemma_merge_zero_is_identity(acc: ExecutorMetrics)
    ensures
        acc.merged(ExecutorMetrics::zero()) == acc,
{
}

} // verus!
