use vstd::prelude::*;

use crate::errors::InstallError;
use crate::sync::SyncOutcome;

verus! {

/// One failed task of a batch: its position in the task list and its error.
#[derive(Debug, Clone, Copy, PartialEq, Eq, Structural)]
pub struct TaskFailure {
    pub index: usize,
    pub error: InstallError,
}

/// The aggregate of a dispatched batch: how many tasks there were, how many
/// succeeded, and each failure with its position.
#[derive(Debug)]
pub struct BatchReport {
    pub total: usize,
    pub succeeded: usize,
    pub failures: Vec<TaskFailure>,
}

/// The failures of a result list, in order, each paired with its index.
pub open spec fn spec_failures(results: Seq<Result<SyncOutcome, InstallError>>) -> Seq<TaskFailure>
    decreases results.len(),
{
    if results.len() == 0 {
        Seq::empty()
    } else {
        let rest = spec_failures(results.drop_last());
        match results.last() {
            Ok(_) => rest,
            Err(e) => rest.push(TaskFailure { index: (results.len() - 1) as usize, error: e }),
        }
    }
}

/// Collect the per-task results of a batch into an aggregate report rather
/// than letting any one failure abort the rest.
pub fn summarize_outcomes(results: &Vec<Result<SyncOutcome, InstallError>>) -> (r: BatchReport)
    ensures
        r.total == results@.len(),
        r.failures@ == spec_failures(results@),
        r.succeeded == results@.len() - r.failures@.len(),
{
    let mut failures: Vec<TaskFailure> = Vec::new();
    let mut i: usize = 0;
    while i < results.len()
        invariant
            0 <= i <= results@.len(),
            failures@ == spec_failures(results@.take(i as int)),
            failures@.len() <= i,
        decreases results@.len() - i,
    {
        match &results[i] {
            Ok(_) => {},
            Err(e) => {
                failures.push(TaskFailure { index: i, error: *e });
            },
        }
        proof {
            assert(results@.take(i + 1 as int).drop_last() =~= results@.take(i as int));
            assert(results@.take(i + 1 as int).last() == results@[i as int]);
        }
        i = i + 1;
    }
    proof {
        assert(results@.take(results@.len() as int) =~= results@);
    }
    let total = results.len();
    let succeeded = total - failures.len();
    BatchReport { total, succeeded, failures }
}

/// Failure isolation, soundness half: every reported failure points at a task
/// that really returned that error.
pub proof fn lemma_failures_sound(results: Seq<Result<SyncOutcome, InstallError>>, k: int)
    requires
        0 <= k < spec_failures(results).len(),
        results.len() <= usize::MAX,
    ensures
        spec_failures(results)[k].index < results.len(),
        results[spec_failures(results)[k].index as int] == Err::<SyncOutcome, InstallError>(
            spec_failures(results)[k].error,
        ),
    decreases results.len(),
{
    if results.len() > 0 {
        let rest = spec_failures(results.drop_last());
        match results.last() {
            Ok(_) => {
                lemma_failures_sound(results.drop_last(), k);
            },
            Err(e) => {
                if k < rest.len() {
                    lemma_failures_sound(results.drop_last(), k);
                } else {
                    assert(spec_failures(results)[k] == TaskFailure {
                        index: (results.len() - 1) as usize,
                        error: e,
                    });
                }
            },
        }
    }
}

/// Failure isolation, completeness half: a task that failed is reported, and
/// a task that succeeded is reported by no failure entry — one task's error
/// never swallows or taints another's outcome.
pub proof fn lemma_failure_isolation(results: Seq<Result<SyncOutcome, InstallError>>, i: int)
    requires
        0 <= i < results.len(),
        results.len() <= usize::MAX,
    ensures
        results[i] matches Err(e) ==> spec_failures(results).contains(
            TaskFailure { index: i as usize, error: e },
        ),
        results[i] is Ok ==> forall|k: int|
            0 <= k < spec_failures(results).len() ==> (#[trigger] spec_failures(results)[k]).index
                != i,
    decreases results.len(),
{
    let fs = spec_failures(results);
    let rest = spec_failures(results.drop_last());
    if i == results.len() - 1 {
        match results.last() {
            Ok(_) => {
                assert forall|k: int| 0 <= k < fs.len() implies (#[trigger] fs[k]).index != i by {
                    lemma_failures_sound(results.drop_last(), k);
                }
            },
            Err(e) => {
                assert(fs.last() == TaskFailure { index: i as usize, error: e });
                assert(fs.contains(TaskFailure { index: i as usize, error: e }));
            },
        }
    } else {
        lemma_failure_isolation(results.drop_last(), i);
        assert(results.drop_last()[i] == results[i]);
        if results[i] is Err {
            let f = TaskFailure { index: i as usize, error: results[i]->Err_0 };
            let k = choose|k: int| 0 <= k < rest.len() && rest[k] == f;
            assert(fs[k] == f);
            assert(fs.contains(f));
        } else {
            assert forall|k: int| 0 <= k < fs.len() implies (#[trigger] fs[k]).index != i by {
                if k < rest.len() {
                    assert(fs[k] == rest[k]);
                } else {
                    assert(fs[k].index == results.len() - 1);
                }
            }
        }
    }
}

} // verus!
