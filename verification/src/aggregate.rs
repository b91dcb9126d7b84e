//! Aggregation over a span walk: per-ledger outcomes are folded into a
//! summary, and a failed ledger never affects what the others report.

use vstd::prelude::*;

verus! {

/// What happened for one ledger of a span: processed with some number of
/// matches, or failed to fetch or decode.
pub enum LedgerOutcome {
    Processed { match_count: usize },
    Failed,
}

/// The summary a span walk emits.
#[derive(Debug, PartialEq, Eq, Structural)]
pub struct SpanSummary {
    pub start_sequence: u32,
    pub end_sequence: u32,
    pub ledgers_processed: usize,
    pub match_total: usize,
}

/// How many ledgers of the span were processed successfully.
pub open spec fn processed_count(events: Seq<LedgerOutcome>) -> int
    decreases events.len(),
{
    if events.len() == 0 {
        0
    } else {
        processed_count(events.drop_last()) + (match events.last() {
            LedgerOutcome::Processed { .. } => 1int,
            LedgerOutcome::Failed => 0int,
        })
    }
}

/// How many matches the processed ledgers contributed in all.
pub open spec fn match_total(events: Seq<LedgerOutcome>) -> int
    decreases events.len(),
{
    if events.len() == 0 {
        0
    } else {
        match_total(events.drop_last()) + (match events.last() {
            LedgerOutcome::Processed { match_count } => match_count as int,
            LedgerOutcome::Failed => 0int,
        })
    }
}

proof fn lemma_counts_nonneg(events: Seq<LedgerOutcome>)
    ensures
        0 <= processed_count(events) <= events.len(),
        0 <= match_total(events),
    decreases events.len(),
{
    if events.len() > 0 {
        lemma_counts_nonneg(events.drop_last());
    }
}

/// Folds the outcomes of a span walk into its summary: the processed
/// count is exactly the number of successful ledgers, and the match
/// total is exactly the sum of their match counts.
pub fn summarize(start_sequence: u32, end_sequence: u32, events: &Vec<LedgerOutcome>) -> (r:
    SpanSummary)
    requires
        match_total(events@) <= usize::MAX,
    ensures
        r.start_sequence == start_sequence,
        r.end_sequence == end_sequence,
        r.ledgers_processed == processed_count(events@),
        r.match_total == match_total(events@),
{
    let mut processed: usize = 0;
    let mut total: usize = 0;
    let mut i: usize = 0;
    while i < events.len()
        invariant
            i <= events@.len(),
            match_total(events@) <= usize::MAX,
            processed == processed_count(events@.subrange(0, i as int)),
            total == match_total(events@.subrange(0, i as int)),
        decreases events@.len() - i,
    {
        let ghost pre = events@.subrange(0, i as int);
        let ghost cur = events@.subrange(0, i + 1);
        proof {
            assert(cur.drop_last() =~= pre);
            assert(cur.last() == events@[i as int]);
            lemma_counts_nonneg(pre);
            lemma_dropped_prefix_le(events@, i + 1);
            lemma_counts_nonneg(cur);
        }
        match &events[i] {
            LedgerOutcome::Processed { match_count } => {
                processed = processed + 1;
                total = total + *match_count;
            },
            LedgerOutcome::Failed => {},
        }
        i = i + 1;
    }
    proof {
        assert(events@.subrange(0, events@.len() as int) =~= events@);
    }
    SpanSummary { start_sequence, end_sequence, ledgers_processed: processed, match_total: total }
}

proof fn lemma_dropped_prefix_le(events: Seq<LedgerOutcome>, k: int)
    requires
        0 <= k <= events.len(),
    ensures
        match_total(events.subrange(0, k)) <= match_total(events),
    decreases events.len() - k,
{
    if k == events.len() {
        assert(events.subrange(0, k) =~= events);
    } else {
        let a = events.subrange(0, k);
        let b = events.subrange(0, k + 1);
        assert(b.drop_last() =~= a);
        lemma_counts_nonneg(a);
        lemma_dropped_prefix_le(events, k + 1);
    }
}

/// A failed ledger contributes nothing: the summary counts over a span
/// equal those of the same span with the failed ledger left out, so the
/// other ledgers' results are reported in full.
pub proof fn lemma_failure_isolated(events: Seq<LedgerOutcome>, i: int)
    requires
        0 <= i < events.len(),
        events[i] is Failed,
    ensures
        processed_count(events) == processed_count(events.remove(i)),
        match_total(events) == match_total(events.remove(i)),
    decreases events.len(),
{
    if i == events.len() - 1 {
        assert(events.remove(i) =~= events.drop_last());
    } else {
        assert(events.remove(i).drop_last() =~= events.drop_last().remove(i));
        assert(events.remove(i).last() == events.last());
        lemma_failure_isolated(events.drop_last(), i);
    }
}

} // verus!
