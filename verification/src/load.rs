//! The bookkeeping of a load run: one warm-up write, then a burst of
//! concurrent reads whose outcomes are counted.

use vstd::prelude::*;

verus! {

/// How many reads a run launches unless told otherwise.
pub const DEFAULT_CONCURRENCY: usize = 10_000;

/// The key a run writes once and then reads.
pub const LOAD_KEY: &'static str = "activities";

/// The counts of a finished run.
#[derive(Debug, Clone, Copy, PartialEq, Eq)]
pub struct LoadReport {
    /// Requests launched.
    pub total: usize,
    /// Requests answered with a status that is not an error.
    pub success: usize,
    /// Requests that failed, were answered with an error, or were lost.
    pub failed: usize,
    /// Wall time from the launch of the first request to the last answer.
    pub elapsed_ms: u128,
}

/// How many of the outcomes are successes.
pub open spec fn successes(outcomes: Seq<bool>) -> nat
    decreases outcomes.len(),
{
    if outcomes.len() == 0 {
        0
    } else {
        successes(outcomes.drop_last()) + if outcomes.last() {
            1nat
        } else {
            0nat
        }
    }
}

/// There are no more successes than outcomes.
pub proof fn successes_bounded(outcomes: Seq<bool>)
    ensures
        successes(outcomes) <= outcomes.len(),
    decreases outcomes.len(),
{
    if outcomes.len() > 0 {
        successes_bounded(outcomes.drop_last());
    }
}

/// Every outcome is a success exactly when the successes are as many as
/// the outcomes.
pub proof fn all_succeeded(outcomes: Seq<bool>)
    ensures
        successes(outcomes) == outcomes.len() <==> forall|i: int| 0 <= i < outcomes.len() ==> outcomes[i],
    decreases outcomes.len(),
{
    if outcomes.len() > 0 {
        let earlier = outcomes.drop_last();
        all_succeeded(earlier);
        successes_bounded(earlier);
        if successes(outcomes) == outcomes.len() {
            assert forall|i: int| 0 <= i < outcomes.len() implies outcomes[i] by {
                if i < earlier.len() {
                    assert(earlier[i] == outcomes[i]);
                }
            }
        } else if forall|i: int| 0 <= i < outcomes.len() ==> outcomes[i] {
            assert forall|i: int| 0 <= i < earlier.len() implies earlier[i] by {
                assert(earlier[i] == outcomes[i]);
            }
        }
    }
}

impl LoadReport {
    /// Whether the counts add up: every request either succeeded or failed.
    pub open spec fn consistent(&self) -> bool {
        self.success + self.failed == self.total
    }

    /// Whether the run passed. One failed request fails the run.
    pub fn passed(&self) -> (ok: bool)
        ensures
            ok == (self.failed == 0),
    {
        self.failed == 0
    }
}

/// Counts the outcomes of a run, `true` for a request that succeeded.
pub fn tally(outcomes: &Vec<bool>, elapsed_ms: u128) -> (report: LoadReport)
    ensures
        report.total == outcomes@.len(),
        report.success == successes(outcomes@),
        report.failed == outcomes@.len() - successes(outcomes@),
        report.elapsed_ms == elapsed_ms,
        report.consistent(),
        report.failed == 0 <==> forall|i: int| 0 <= i < outcomes@.len() ==> outcomes@[i],
{
    let mut success: usize = 0;
    let mut failed: usize = 0;
    let mut i: usize = 0;
    while i < outcomes.len()
        invariant
            i <= outcomes.len(),
            success == successes(outcomes@.take(i as int)),
            success + failed == i,
        decreases outcomes.len() - i,
    {
        proof {
            assert(outcomes@.take(i + 1).drop_last() =~= outcomes@.take(i as int));
        }
        if outcomes[i] {
            success += 1;
        } else {
            failed += 1;
        }
        i += 1;
    }
    proof {
        assert(outcomes@.take(i as int) =~= outcomes@);
        all_succeeded(outcomes@);
    }
    LoadReport { total: outcomes.len(), success, failed, elapsed_ms }
}

} // verus!
