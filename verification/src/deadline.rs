//! The per-request time budget.

use crate::clock;
use crate::error::Error;
use vstd::prelude::*;

verus! {

/// A monotonic time budget computed once per request.
///
/// The start instant is captured at construction; the absolute deadline is
/// always `start + budget` and is represented here as the budget offset in
/// nanoseconds from that start. Resetting the budget therefore keeps the
/// original start: time already spent (for example in a queue) keeps counting
/// against the new budget.
#[derive(Debug, Clone, Copy)]
pub struct Deadline {
    /// Names the request kind in the error raised when the deadline passes.
    tag: &'static str,
    start: std::time::Instant,
    budget_ns: u64,
}

impl Deadline {
    /// The diagnostic tag the deadline was built with.
    pub closed spec fn tag_spec(self) -> &'static str {
        self.tag
    }

    /// Nanoseconds after the start instant at which the deadline falls.
    pub closed spec fn budget_ns_spec(self) -> u64 {
        self.budget_ns
    }

    /// The start instant captured at construction.
    pub closed spec fn start_spec(self) -> std::time::Instant {
        self.start
    }

    /// Whether a step taken `elapsed_ns` after the start is over budget.
    /// The deadline counts as exceeded exactly from `start + budget` on.
    pub open spec fn exceeded_at(self, elapsed_ns: u64) -> bool {
        self.budget_ns_spec() <= elapsed_ns
    }

    /// Captures the current monotonic time as the start and places the
    /// deadline `duration_ns` nanoseconds after it. No failure mode.
    pub fn from_now(tag: &'static str, duration_ns: u64) -> (r: Self)
        ensures
            r.tag_spec() == tag,
            r.budget_ns_spec() == duration_ns,
    {
        let start = clock::monotonic_now();
        Deadline { tag, start, budget_ns: duration_ns }
    }

    /// Moves the deadline to the *original* start time plus `duration_ns` —
    /// not to the current time plus `duration_ns`. Time already elapsed since
    /// construction (queueing delay, say) still counts against the new
    /// budget. Used once the real maximum handling duration becomes known.
    pub fn reset(&mut self, duration_ns: u64)
        ensures
            final(self).tag_spec() == old(self).tag_spec(),
            final(self).start_spec() == old(self).start_spec(),
            final(self).budget_ns_spec() == duration_ns,
    {
        self.budget_ns = duration_ns;
    }

    /// The deadline decision for a given elapsed time: succeeds for every
    /// elapsed time strictly below the budget, and fails with
    /// `Outdated(elapsed_ns, tag)` for every elapsed time at or past it.
    pub fn check_if_exceeded_at(&self, elapsed_ns: u64) -> (r: Result<(), Error>)
        ensures
            self.exceeded_at(elapsed_ns) ==> r == Err::<(), Error>(
                Error::Outdated(elapsed_ns, self.tag_spec()),
            ),
            !self.exceeded_at(elapsed_ns) ==> r == Ok::<(), Error>(()),
    {
        if self.budget_ns <= elapsed_ns {
            Err(Error::Outdated(elapsed_ns, self.tag))
        } else {
            Ok(())
        }
    }

    /// Samples the monotonic clock and applies [`Self::check_if_exceeded_at`]
    /// to the sample. The sample itself cannot be pinned down, so the
    /// contract promises only what holds of every outcome: an error is always
    /// `Outdated`, carries this deadline's tag, and reports an elapsed time
    /// at or past the budget.
    pub fn check_if_exceeded(&self) -> (r: Result<(), Error>)
        ensures
            r matches Err(e) ==> e matches Error::Outdated(el, t) && el >= self.budget_ns_spec()
                && t == self.tag_spec(),
    {
        let elapsed: u64 = clock::elapsed_ns(&self.start);
        self.check_if_exceeded_at(elapsed)
    }
}

} // verus!
