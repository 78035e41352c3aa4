//! Aggregation: the ordered rows of a run and their total.
//!
//! The total a run reports is, by construction and by proof, exactly the sum
//! of the per-file counts, and that sum does not depend on the order in
//! which the rows were collected.

use vstd::prelude::*;
use crate::engine::FileResult;

verus! {

/// The sum of the token counts of a sequence of rows.
pub open spec fn sum_counts(rows: Seq<FileResult>) -> int
    decreases rows.len(),
{
    if rows.len() == 0 {
        0
    } else {
        sum_counts(rows.drop_last()) + rows.last().count
    }
}

proof fn lemma_sum_counts_prefix_le(rows: Seq<FileResult>, i: int)
    requires
        0 <= i <= rows.len(),
    ensures
        sum_counts(rows.take(i)) <= sum_counts(rows),
    decreases rows.len() - i,
{
    if i < rows.len() {
        assert(rows.take(i + 1).drop_last() =~= rows.take(i));
        assert(rows.take(i + 1).last() == rows[i]);
        lemma_sum_counts_prefix_le(rows, i + 1);
    } else {
        assert(rows.take(i) =~= rows);
    }
}

proof fn lemma_sum_counts_remove(rows: Seq<FileResult>, i: int)
    requires
        0 <= i < rows.len(),
    ensures
        sum_counts(rows.remove(i)) == sum_counts(rows) - rows[i].count,
    decreases rows.len(),
{
    if i == rows.len() - 1 {
        assert(rows.remove(i) =~= rows.drop_last());
    } else {
        assert(rows.remove(i).drop_last() =~= rows.drop_last().remove(i));
        assert(rows.remove(i).last() == rows.last());
        lemma_sum_counts_remove(rows.drop_last(), i);
    }
}

/// The sum of the counts of a run's rows does not depend on the order the
/// rows were collected in: any two runs that report the same rows, as a
/// multiset, report the same total.
pub proof fn lemma_total_order_independent(a: Seq<FileResult>, b: Seq<FileResult>)
    requires
        a.to_multiset() == b.to_multiset(),
    ensures
        sum_counts(a) == sum_counts(b),
    decreases a.len(),
{
    broadcast use vstd::seq_lib::group_to_multiset_ensures;

    if a.len() == 0 {
        assert(a.to_multiset().len() == a.len());
        assert(b.to_multiset().len() == b.len());
        assert(b.len() == 0);
    } else {
        let x = a.last();
        assert(a[a.len() - 1] == x);
        assert(a.to_multiset().count(x) > 0);
        assert(b.to_multiset().count(x) > 0);
        let i = choose|i: int| 0 <= i < b.len() && b[i] == x;
        assert(a.drop_last() =~= a.remove(a.len() - 1));
        assert(a.remove(a.len() - 1).to_multiset() =~= a.to_multiset().remove(x));
        assert(b.remove(i).to_multiset() =~= b.to_multiset().remove(x));
        lemma_total_order_independent(a.drop_last(), b.remove(i));
        lemma_sum_counts_remove(b, i);
    }
}

/// One run's report: its ordered rows and the derived total.
pub struct RunSummary {
    pub results: Vec<FileResult>,
    pub total: usize,
}

impl RunSummary {
    /// Well-formed: the total equals the sum of the per-row counts.
    pub open spec fn wf(self) -> bool {
        self.total == sum_counts(self.results@)
    }
}

/// Aggregates the rows of a run into a summary whose total is exactly the
/// sum of all per-file counts; `None` exactly when that sum does not fit in
/// `usize`.
pub fn summarize(results: Vec<FileResult>) -> (r: Option<RunSummary>)
    ensures
        r is Some <==> sum_counts(results@) <= usize::MAX,
        r matches Some(s) ==> s.results@ == results@ && s.total == sum_counts(results@)
            && s.wf(),
{
    let mut total: usize = 0;
    let mut i: usize = 0;
    proof {
        assert(results@.take(0) =~= Seq::<FileResult>::empty());
    }
    while i < results.len()
        invariant
            i <= results@.len(),
            total == sum_counts(results@.take(i as int)),
        decreases results@.len() - i,
    {
        let c = results[i].count;
        proof {
            assert(results@.take(i + 1).drop_last() =~= results@.take(i as int));
            assert(results@.take(i + 1).last() == results@[i as int]);
        }
        if c <= usize::MAX - total {
            total = total + c;
        } else {
            proof {
                lemma_sum_counts_prefix_le(results@, i + 1);
            }
            return None;
        }
        i = i + 1;
    }
    proof {
        assert(results@.take(results@.len() as int) =~= results@);
    }
    Some(RunSummary { results, total })
}

} // verus!
