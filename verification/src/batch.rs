//! Bulk operations: one operation on each of several items, where the
//! failure of one item never keeps the others from their turn.

use vstd::prelude::*;
use crate::error::LinearError;

verus! {

/// Something to download: its 1-based position among the assets of an issue,
/// its title, and where it lies.
pub struct Asset {
    pub index: usize,
    pub title: String,
    pub url: String,
}

/// Result of a single download attempt
#[derive(Debug)]
pub enum DownloadResult {
    Success { index: usize, path: String },
    Failed { index: usize, url: String, error: String },
}

impl DownloadResult {
    /// Whether the download succeeded.
    pub open spec fn succeeded(&self) -> bool {
        self is Success
    }

    /// The position of the item that this is the outcome of.
    pub open spec fn position(&self) -> usize {
        match self {
            DownloadResult::Success { index, .. } => *index,
            DownloadResult::Failed { index, .. } => *index,
        }
    }

    /// Whether the download succeeded.
    pub fn is_success(&self) -> (r: bool)
        ensures
            r == self.succeeded(),
    {
        match self {
            DownloadResult::Success { .. } => true,
            DownloadResult::Failed { .. } => false,
        }
    }
}

/// Whether `result` is the outcome of `item` under an operation that
/// answered `answer`: a success with the path it gave, or a failure with the
/// item's URL and the failure's message.
pub open spec fn records(item: Asset, answer: Result<String, LinearError>, result: DownloadResult)
    -> bool {
    match answer {
        Ok(path) => result matches DownloadResult::Success { index, path: p } && index == item.index
            && p@ == path@,
        Err(e) => result matches DownloadResult::Failed { index, url, error } && index == item.index
            && url@ == item.url@ && error@ == e@.message(),
    }
}

/// Whether `result` is the outcome of `item` under `operation`: the record
/// of something that the operation answers for the item.
pub open spec fn outcome_of<F: Fn(&Asset) -> Result<String, LinearError>>(
    operation: F,
    item: Asset,
    result: DownloadResult,
) -> bool {
    exists|answer: Result<String, LinearError>|
        call_ensures(operation, (&item,), answer) && #[trigger] records(item, answer, result)
}

/// How many of the results are successes.
pub open spec fn successes(results: Seq<DownloadResult>) -> nat
    decreases results.len(),
{
    if results.len() == 0 {
        0
    } else {
        successes(results.drop_last()) + (if results.last().succeeded() {
            1nat
        } else {
            0nat
        })
    }
}

/// How many of the results are failures.
pub open spec fn failures(results: Seq<DownloadResult>) -> nat
    decreases results.len(),
{
    if results.len() == 0 {
        0
    } else {
        failures(results.drop_last()) + (if results.last().succeeded() {
            0nat
        } else {
            1nat
        })
    }
}

/// Every result is a success or a failure: the two counts add up to the
/// number of results.
pub proof fn lemma_counts_add_up(results: Seq<DownloadResult>)
    ensures
        successes(results) + failures(results) == results.len(),
    decreases results.len(),
{
    if results.len() > 0 {
        lemma_counts_add_up(results.drop_last());
    }
}

/// The outcome of one item.
pub fn record(item: &Asset, answer: Result<String, LinearError>) -> (result: DownloadResult)
    ensures
        records(*item, answer, result),
{
    match answer {
        Ok(path) => DownloadResult::Success { index: item.index, path },
        Err(e) => DownloadResult::Failed {
            index: item.index,
            url: item.url.clone(),
            error: e.message(),
        },
    }
}

/// Runs `operation` on every item, one after the other and each exactly
/// once, whatever became of the items before it. There is one result for
/// each item, at the item's place: what the operation answered for it.
pub fn run_batch<F: Fn(&Asset) -> Result<String, LinearError>>(items: &Vec<Asset>, operation: F) -> (results:
    Vec<DownloadResult>)
    requires
        forall|i: int| 0 <= i < items@.len() ==> call_requires(operation, (&#[trigger] items@[i],)),
    ensures
        results@.len() == items@.len(),
        forall|i: int|
            0 <= i < items@.len() ==> (#[trigger] results@[i]).position() == items@[i].index,
        forall|i: int|
            0 <= i < items@.len() ==> outcome_of(operation, items@[i], #[trigger] results@[i]),
        successes(results@) + failures(results@) == items@.len(),
{
    let mut results: Vec<DownloadResult> = Vec::new();
    let mut i: usize = 0;
    while i < items.len()
        invariant
            i <= items@.len(),
            results@.len() == i,
            forall|k: int|
                0 <= k < items@.len() ==> call_requires(operation, (&#[trigger] items@[k],)),
            forall|k: int| 0 <= k < i ==> (#[trigger] results@[k]).position() == items@[k].index,
            forall|k: int|
                0 <= k < i ==> outcome_of(operation, items@[k], #[trigger] results@[k]),
        decreases items@.len() - i,
    {
        let answer = operation(&items[i]);
        let ghost given = answer;
        let result = record(&items[i], answer);
        results.push(result);
        proof {
            assert(call_ensures(operation, (&items@[i as int],), given) && records(
                items@[i as int],
                given,
                results@[i as int],
            ));
            assert(outcome_of(operation, items@[i as int], results@[i as int]));
        }
        i += 1;
    }
    proof {
        lemma_counts_add_up(results@);
    }
    results
}

/// The numbers of successes and of failures among the results.
pub fn tally(results: &Vec<DownloadResult>) -> (r: (usize, usize))
    ensures
        r.0 == successes(results@),
        r.1 == failures(results@),
        r.0 + r.1 == results@.len(),
{
    let mut ok: usize = 0;
    let mut bad: usize = 0;
    let mut i: usize = 0;
    while i < results.len()
        invariant
            i <= results@.len(),
            ok == successes(results@.take(i as int)),
            bad == failures(results@.take(i as int)),
            ok + bad == i,
        decreases results@.len() - i,
    {
        proof {
            assert(results@.take(i + 1).drop_last() =~= results@.take(i as int));
        }
        if results[i].is_success() {
            ok += 1;
        } else {
            bad += 1;
        }
        i += 1;
    }
    proof {
        assert(results@.take(results@.len() as int) =~= results@);
    }
    (ok, bad)
}

} // verus!
