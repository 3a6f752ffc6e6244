//! The two process-wide request counters and the monotonicity law over runs
//! of request outcomes.

use vstd::prelude::*;

verus! {

/// Two monotonically increasing counters, incremented at most once per
/// completed request per hop and never decremented.  Sharing them across
/// concurrent tasks is the embedding program's concern; each handler call
/// holds them exclusively for the duration of one increment.
#[derive(Clone, Copy, PartialEq, Eq, Structural, Debug)]
pub struct Counters {
    pub success: u64,
    pub failure: u64,
}

impl Counters {
    /// Both counters at zero.
    pub fn new() -> (c: Counters)
        ensures
            c.success == 0,
            c.failure == 0,
    {
        Counters { success: 0, failure: 0 }
    }

    /// Counts one successful request; the failure counter is untouched.
    pub fn record_success(&mut self)
        requires
            old(self).success < u64::MAX,
        ensures
            final(self).success == old(self).success + 1,
            final(self).failure == old(self).failure,
    {
        self.success = self.success + 1;
    }

    /// Counts one failed request; the success counter is untouched.
    pub fn record_failure(&mut self)
        requires
            old(self).failure < u64::MAX,
        ensures
            final(self).failure == old(self).failure + 1,
            final(self).success == old(self).success,
    {
        self.failure = self.failure + 1;
    }
}

/// How many of a run's outcomes succeeded.
pub open spec fn count_successes(outcomes: Seq<bool>) -> nat
    decreases outcomes.len(),
{
    if outcomes.len() == 0 {
        0
    } else {
        count_successes(outcomes.drop_last()) + if outcomes.last() {
            1nat
        } else {
            0nat
        }
    }
}

/// The counters after one recorded outcome.
pub open spec fn step_counters(c: Counters, success: bool) -> Counters {
    if success {
        Counters { success: (c.success + 1) as u64, failure: c.failure }
    } else {
        Counters { success: c.success, failure: (c.failure + 1) as u64 }
    }
}

/// The counters after a run of recorded outcomes, one hop observing each.
pub open spec fn apply_outcomes(c: Counters, outcomes: Seq<bool>) -> Counters
    decreases outcomes.len(),
{
    if outcomes.len() == 0 {
        c
    } else {
        step_counters(apply_outcomes(c, outcomes.drop_last()), outcomes.last())
    }
}

/// Counter monotonicity law: a run of outcomes raises the success counter by
/// exactly the number of successes and the failure counter by exactly the
/// number of failures; in particular neither counter ever decreases.
pub proof fn lemma_counter_monotonicity(c: Counters, outcomes: Seq<bool>)
    requires
        c.success + count_successes(outcomes) <= u64::MAX,
        c.failure + outcomes.len() <= u64::MAX + count_successes(outcomes),
    ensures
        apply_outcomes(c, outcomes).success == c.success + count_successes(outcomes),
        apply_outcomes(c, outcomes).failure + count_successes(outcomes) == c.failure
            + outcomes.len(),
    decreases outcomes.len(),
{
    if outcomes.len() > 0 {
        lemma_count_successes_bound(outcomes.drop_last());
        assert(count_successes(outcomes) == count_successes(outcomes.drop_last())
            + if outcomes.last() {
            1nat
        } else {
            0nat
        });
        lemma_counter_monotonicity(c, outcomes.drop_last());
    }
}

/// A run has no more successes than outcomes.
pub proof fn lemma_count_successes_bound(outcomes: Seq<bool>)
    ensures
        count_successes(outcomes) <= outcomes.len(),
    decreases outcomes.len(),
{
    if outcomes.len() > 0 {
        lemma_count_successes_bound(outcomes.drop_last());
    }
}

} // verus!
