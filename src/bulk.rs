//! Summaries of bulk deletions.

use vstd::prelude::*;

verus! {

/// The outcome of a bulk delete: how many deletions succeeded, and the
/// position and reason of each that failed, in input order.
pub struct DeleteSummary {
    pub succeeded: usize,
    pub failed: Vec<(usize, String)>,
}

/// How many of `results` succeeded.
pub open spec fn success_count(results: Seq<Result<(), String>>) -> nat
    decreases results.len(),
{
    if results.len() == 0 {
        0
    } else {
        success_count(results.drop_last()) + if results.last() is Ok {
            1nat
        } else {
            0nat
        }
    }
}

/// The position and reason of each failure in `results`, in order.
pub open spec fn failed_entries(results: Seq<Result<(), String>>) -> Seq<(int, Seq<char>)>
    decreases results.len(),
{
    if results.len() == 0 {
        Seq::empty()
    } else {
        let before = failed_entries(results.drop_last());
        match results.last() {
            Ok(_) => before,
            Err(reason) => before.push(((results.len() - 1) as int, reason@)),
        }
    }
}

/// Every result is counted once: as a success or as a failure.
pub proof fn lemma_every_result_counted(results: Seq<Result<(), String>>)
    ensures
        success_count(results) + failed_entries(results).len() == results.len(),
    decreases results.len(),
{
    if results.len() > 0 {
        lemma_every_result_counted(results.drop_last());
    }
}

/// Summarizes the per-object results of a bulk delete without failing the
/// batch as a whole.
pub fn summarize_deletions(results: &Vec<Result<(), String>>) -> (r: DeleteSummary)
    ensures
        r.succeeded == success_count(results@),
        r.failed@.len() == failed_entries(results@).len(),
        forall|k: int|
            0 <= k < r.failed@.len() ==> (#[trigger] r.failed@[k]).0 as int == failed_entries(
                results@,
            )[k].0 && r.failed@[k].1@ == failed_entries(results@)[k].1,
{
    let mut succeeded: usize = 0;
    let mut failed: Vec<(usize, String)> = Vec::new();
    let mut i: usize = 0;
    while i < results.len()
        invariant
            i <= results@.len(),
            succeeded == success_count(results@.subrange(0, i as int)),
            failed@.len() == failed_entries(results@.subrange(0, i as int)).len(),
            forall|k: int|
                0 <= k < failed@.len() ==> (#[trigger] failed@[k]).0 as int == failed_entries(
                    results@.subrange(0, i as int),
                )[k].0 && failed@[k].1@ == failed_entries(results@.subrange(0, i as int))[k].1,
        decreases results@.len() - i,
    {
        let ghost prefix = results@.subrange(0, i as int);
        let ghost next = results@.subrange(0, i + 1);
        proof {
            assert(next.drop_last() =~= prefix);
            assert(next.last() == results@[i as int]);
            lemma_every_result_counted(prefix);
            assert(success_count(prefix) <= prefix.len());
        }
        match &results[i] {
            Ok(_) => {
                succeeded = succeeded + 1;
            },
            Err(reason) => {
                failed.push((i, reason.clone()));
            },
        }
        i = i + 1;
    }
    proof {
        assert(results@.subrange(0, results@.len() as int) =~= results@);
    }
    DeleteSummary { succeeded, failed }
}

} // verus!
