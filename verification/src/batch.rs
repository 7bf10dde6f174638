//! Batch collection: requests are processed in input order, each one
//! yielding either a record or a per-item failure; the successes are kept
//! in order, the failures become diagnostics, and no failure ever aborts
//! the batch.

use vstd::prelude::*;

verus! {

use crate::error::FwPullError;
use crate::Server;

/// What one request came to: a record, or the per-item failure that was
/// reported for it.
#[derive(Debug)]
pub enum ItemOutcome {
    Extracted(Server),
    Failed(FwPullError),
}

/// The records the batch keeps: every extracted record, in input order,
/// with the failed items left out.
pub open spec fn collected(outcomes: Seq<ItemOutcome>) -> Seq<Server>
    decreases outcomes.len(),
{
    if outcomes.len() == 0 {
        Seq::empty()
    } else {
        let rest = collected(outcomes.drop_last());
        match outcomes.last() {
            ItemOutcome::Extracted(rec) => rest.push(rec),
            ItemOutcome::Failed(_) => rest,
        }
    }
}

/// One item's failure costs only that item: it adds no record and drops
/// none that came before, so the batch never aborts on a failed item. One
/// item's success appends exactly its record.
pub proof fn lemma_collected_step(outcomes: Seq<ItemOutcome>, next: ItemOutcome)
    ensures
        collected(outcomes.push(next)) == match next {
            ItemOutcome::Extracted(rec) => collected(outcomes).push(rec),
            ItemOutcome::Failed(_) => collected(outcomes),
        },
{
    assert(outcomes.push(next).drop_last() =~= outcomes);
    assert(outcomes.push(next).last() == next);
}

/// Collects a batch's outcomes: the extracted records in input order, and
/// the count of failed items, one diagnostic each.
pub fn collect_records(outcomes: &Vec<ItemOutcome>) -> (r: (Vec<Server>, usize))
    ensures
        r.0@ == collected(outcomes@),
        r.1 + collected(outcomes@).len() == outcomes@.len(),
{
    let mut records: Vec<Server> = Vec::new();
    let mut diagnostics: usize = 0;
    let mut i: usize = 0;
    while i < outcomes.len()
        invariant
            i <= outcomes@.len(),
            records@ == collected(outcomes@.subrange(0, i as int)),
            diagnostics + records@.len() == i,
        decreases outcomes@.len() - i,
    {
        let ghost pre = outcomes@.subrange(0, i as int);
        let ghost post = outcomes@.subrange(0, i as int + 1);
        match &outcomes[i] {
            ItemOutcome::Extracted(rec) => {
                records.push(rec.clone());
            },
            ItemOutcome::Failed(_) => {
                diagnostics = diagnostics + 1;
            },
        }
        proof {
            assert(post.drop_last() =~= pre);
            assert(post.last() == outcomes@[i as int]);
        }
        i = i + 1;
    }
    proof {
        assert(outcomes@.subrange(0, outcomes@.len() as int) =~= outcomes@);
    }
    (records, diagnostics)
}

} // verus!
