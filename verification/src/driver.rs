//! The batch driver's decisions: fan a run out into exactly the configured
//! number of workflow attempts, and fold the attempts' outcomes into one
//! report that keeps every failure, losing none.

use crate::config::RunConfig;
use crate::workflow::AbortReason;
use vstd::prelude::*;

verus! {

/// How one workflow attempt ended.
#[derive(Clone, Copy, PartialEq, Eq, Structural, Debug)]
pub enum AttemptOutcome {
    Success,
    Failed { reason: AbortReason },
}

/// The attempt numbers a run launches: one per repeat, in order.
pub fn plan_attempts(config: &RunConfig) -> (r: Vec<u64>)
    requires
        config.repeat_count <= usize::MAX,
    ensures
        r@.len() == config.repeat_count,
        forall|i: int| 0 <= i < r@.len() ==> r@[i] == i,
{
    let n: usize = config.repeat_count as usize;
    let mut r: Vec<u64> = Vec::new();
    let mut i: usize = 0;
    while i < n
        invariant
            i <= n,
            r@.len() == i,
            forall|k: int| 0 <= k < i ==> r@[k] == k,
        decreases n - i,
    {
        r.push(i as u64);
        i = i + 1;
    }
    r
}

/// How the attempts of a run are scheduled: one at a time, or all launched
/// immediately and awaited together.
#[derive(Clone, Copy, PartialEq, Eq, Structural, Debug)]
pub enum Scheduling {
    Sequential,
    Concurrent,
}

/// Whether the run goes on after an attempt's outcome: a sequential run
/// aborts its remaining attempts on the first failure, a concurrent run
/// awaits every launched attempt regardless.
pub fn continue_after(policy: Scheduling, outcome: &AttemptOutcome) -> (r: bool)
    ensures
        r == (policy == Scheduling::Concurrent || *outcome is Success),
{
    match policy {
        Scheduling::Concurrent => true,
        Scheduling::Sequential => match outcome {
            AttemptOutcome::Success => true,
            AttemptOutcome::Failed { .. } => false,
        },
    }
}

/// The indices of the failed outcomes, in order.
pub open spec fn failed_indices_spec(s: Seq<AttemptOutcome>) -> Seq<usize>
    decreases s.len(),
{
    if s.len() == 0 {
        Seq::empty()
    } else if s.last() is Failed {
        failed_indices_spec(s.drop_last()) + seq![(s.len() - 1) as usize]
    } else {
        failed_indices_spec(s.drop_last())
    }
}

/// The report lists an index exactly when that attempt failed: aggregation
/// loses no failure and invents none.
pub proof fn lemma_failed_indices_complete(s: Seq<AttemptOutcome>)
    requires
        s.len() <= usize::MAX,
    ensures
        forall|i: int|
            0 <= i < s.len() ==> ((s[i] is Failed) <==> failed_indices_spec(s).contains(
                (i as usize),
            )),
        forall|k: int|
            0 <= k < failed_indices_spec(s).len() ==> (#[trigger] failed_indices_spec(s)[k]) < s.len(),
    decreases s.len(),
{
    if s.len() > 0 {
        lemma_failed_indices_complete(s.drop_last());
        let f = failed_indices_spec(s);
        let fh = failed_indices_spec(s.drop_last());
        assert forall|i: int| 0 <= i < s.len() implies ((s[i] is Failed) <==> f.contains(
            (i as usize),
        )) by {
            if i < s.len() - 1 {
                assert(s.drop_last()[i] == s[i]);
                if fh.contains((i as usize)) {
                    let k = choose|k: int| 0 <= k < fh.len() && fh[k] == i as usize;
                    assert(f[k] == i as usize);
                } else if f.contains((i as usize)) {
                    let k = choose|k: int| 0 <= k < f.len() && f[k] == i as usize;
                    if k < fh.len() {
                        assert(fh[k] == i as usize);
                    }
                }
            } else {
                if s.last() is Failed {
                    assert(f[f.len() - 1] == i as usize);
                } else {
                    if f.contains((i as usize)) {
                        let k = choose|k: int| 0 <= k < f.len() && f[k] == i as usize;
                        assert(fh[k] == i as usize);
                    }
                }
            }
        }
    }
}

/// A report with no listed failure means every attempt succeeded, and one
/// with any listed failure means some attempt failed: the aggregate verdict
/// is wrong for no outcome sequence.
pub proof fn lemma_report_ok_iff_no_failure(s: Seq<AttemptOutcome>)
    requires
        s.len() <= usize::MAX,
    ensures
        (failed_indices_spec(s).len() == 0) <==> (forall|i: int|
            0 <= i < s.len() ==> !((#[trigger] s[i]) is Failed)),
{
    lemma_failed_indices_complete(s);
    let f = failed_indices_spec(s);
    if f.len() > 0 {
        let k: int = 0;
        assert(f.contains(f[k]));
        assert(s[f[k] as int] is Failed);
    }
}

/// The outcome of a whole run: how many attempts ran and which failed.
pub struct BatchReport {
    pub total: usize,
    pub failures: Vec<usize>,
}

impl BatchReport {
    /// A run is reported successful exactly when no attempt failed.
    pub fn ok(&self) -> (r: bool)
        ensures
            r == (self.failures@.len() == 0),
    {
        self.failures.len() == 0
    }
}

/// Fold all attempts' outcomes into a report; every failure is kept.
pub fn aggregate(outcomes: &Vec<AttemptOutcome>) -> (r: BatchReport)
    ensures
        r.total == outcomes@.len(),
        r.failures@ == failed_indices_spec(outcomes@),
{
    let n = outcomes.len();
    let mut failures: Vec<usize> = Vec::new();
    let mut i: usize = 0;
    while i < n
        invariant
            n == outcomes@.len(),
            i <= n,
            failures@ == failed_indices_spec(outcomes@.take(i as int)),
        decreases n - i,
    {
        proof {
            assert(outcomes@.take(i as int + 1).drop_last() =~= outcomes@.take(i as int));
            assert(outcomes@.take(i as int + 1).last() == outcomes@[i as int]);
        }
        let failed = match outcomes[i] {
            AttemptOutcome::Failed { .. } => true,
            AttemptOutcome::Success => false,
        };
        if failed {
            failures.push(i);
        }
        i = i + 1;
    }
    proof {
        assert(outcomes@.take(n as int) =~= outcomes@);
    }
    BatchReport { total: n, failures }
}

} // verus!
