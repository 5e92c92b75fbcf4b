//! Post-run evaluation: fixed-size chunking of the held-out test set and
//! exact aggregation of per-chunk correctness counts.

use vstd::prelude::*;
use vstd::arithmetic::div_mod::{
    lemma_basic_div,
    lemma_div_multiples_vanish_fancy,
    lemma_div_plus_one,
};
use crate::accuracy::Accuracy;

verus! {

/// What the backend reports for one evaluation chunk: how many of its
/// examples were classified correctly, out of how many.
#[derive(Clone, Copy, Debug, PartialEq, Eq, Structural)]
pub struct ChunkOutcome {
    /// Examples in the chunk whose predicted class matched the label.
    pub matched: u64,
    /// Examples the chunk held.
    pub total: u64,
}

impl ChunkOutcome {
    /// A count of matches can be at most the chunk's size.
    pub open spec fn wf(self) -> bool {
        self.matched <= self.total
    }
}

/// Matched examples summed over a sequence of chunk outcomes.
pub open spec fn sum_matched(s: Seq<ChunkOutcome>) -> int
    decreases s.len(),
{
    if s.len() == 0 {
        0
    } else {
        sum_matched(s.drop_last()) + s.last().matched
    }
}

/// Examples summed over a sequence of chunk outcomes.
pub open spec fn sum_total(s: Seq<ChunkOutcome>) -> int
    decreases s.len(),
{
    if s.len() == 0 {
        0
    } else {
        sum_total(s.drop_last()) + s.last().total
    }
}

/// Combines per-chunk correctness counts into one running total, and from
/// it the single aggregate accuracy `matched / seen` over the whole test
/// set.
#[derive(Clone, Copy, Debug, PartialEq, Eq, Structural)]
pub struct Evaluator {
    /// Correctly classified examples over all chunks observed so far.
    pub matched: u64,
    /// Examples over all chunks observed so far.
    pub seen: u64,
}

impl Evaluator {
    /// No more matches than examples.
    pub open spec fn wf(self) -> bool {
        self.matched <= self.seen
    }

    /// The aggregate accuracy this evaluator reports: the exact ratio of
    /// its running counts, or nothing while no example was seen.
    pub open spec fn spec_accuracy(self) -> Option<Accuracy> {
        if self.seen >= 1 {
            Some(Accuracy { correct: self.matched, total: self.seen })
        } else {
            None
        }
    }

    /// A fresh evaluator that has seen nothing.
    pub fn new() -> (r: Evaluator)
        ensures
            r.wf(),
            r.matched == 0,
            r.seen == 0,
    {
        Evaluator { matched: 0, seen: 0 }
    }

    /// Adds one chunk's counts to the running totals. The whole test set
    /// must fit in the counters, which the machine's memory already
    /// forces.
    pub fn observe_chunk(&mut self, outcome: ChunkOutcome)
        requires
            old(self).wf(),
            outcome.wf(),
            old(self).seen + outcome.total <= u64::MAX,
        ensures
            final(self).wf(),
            final(self).matched == old(self).matched + outcome.matched,
            final(self).seen == old(self).seen + outcome.total,
    {
        self.matched = self.matched + outcome.matched;
        self.seen = self.seen + outcome.total;
    }

    /// The aggregate accuracy over everything observed: `None` exactly
    /// when no example was seen, otherwise the exact ratio of the totals.
    pub fn accuracy(&self) -> (r: Option<Accuracy>)
        requires
            self.wf(),
        ensures
            r == self.spec_accuracy(),
            r is Some <==> self.seen >= 1,
            r matches Some(a) ==> a.wf() && a.correct == self.matched && a.total == self.seen,
    {
        if self.seen >= 1 {
            Some(Accuracy { correct: self.matched, total: self.seen })
        } else {
            None
        }
    }
}

/// Evaluates a whole run of chunk outcomes at once: the accuracy whose
/// numerator and denominator are the sums over all chunks, `None` exactly
/// when the chunks held no example at all.
pub fn evaluate(outcomes: &Vec<ChunkOutcome>) -> (r: Option<Accuracy>)
    requires
        forall|i: int| 0 <= i < outcomes@.len() ==> (#[trigger] outcomes@[i]).wf(),
        sum_total(outcomes@) <= u64::MAX,
    ensures
        r is Some <==> sum_total(outcomes@) >= 1,
        r matches Some(a) ==> a.wf() && a.correct == sum_matched(outcomes@) && a.total
            == sum_total(outcomes@),
{
    let mut ev = Evaluator::new();
    let mut i: usize = 0;
    while i < outcomes.len()
        invariant
            i <= outcomes@.len(),
            forall|k: int| 0 <= k < outcomes@.len() ==> (#[trigger] outcomes@[k]).wf(),
            sum_total(outcomes@) <= u64::MAX,
            ev.wf(),
            ev.matched == sum_matched(outcomes@.take(i as int)),
            ev.seen == sum_total(outcomes@.take(i as int)),
        decreases outcomes@.len() - i,
    {
        proof {
            lemma_sum_take_step(outcomes@, i as int);
            lemma_sum_total_take_bound(outcomes@, i + 1);
        }
        ev.observe_chunk(outcomes[i]);
        i = i + 1;
    }
    proof {
        assert(outcomes@.take(outcomes@.len() as int) =~= outcomes@);
    }
    ev.accuracy()
}

/// Taking one more element adds exactly its counts to both sums.
proof fn lemma_sum_take_step(s: Seq<ChunkOutcome>, i: int)
    requires
        0 <= i < s.len(),
    ensures
        sum_matched(s.take(i + 1)) == sum_matched(s.take(i)) + s[i].matched,
        sum_total(s.take(i + 1)) == sum_total(s.take(i)) + s[i].total,
{
    assert(s.take(i + 1).drop_last() =~= s.take(i));
    assert(s.take(i + 1).last() == s[i]);
}

/// Each chunk's counts are non-negative, so the sum over a prefix is at
/// most the sum over the whole sequence.
proof fn lemma_sum_total_take_bound(s: Seq<ChunkOutcome>, n: int)
    requires
        0 <= n <= s.len(),
    ensures
        sum_total(s.take(n)) <= sum_total(s),
        sum_matched(s.take(n)) <= sum_matched(s),
        sum_total(s.take(n)) >= 0,
        sum_matched(s.take(n)) >= 0,
    decreases s.len() - n,
{
    lemma_sums_nonnegative(s.take(n));
    if n == s.len() {
        assert(s.take(n) =~= s);
        lemma_sums_nonnegative(s);
    } else {
        lemma_sum_take_step(s, n);
        lemma_sum_total_take_bound(s, n + 1);
    }
}

/// Sums of whole counts are non-negative.
proof fn lemma_sums_nonnegative(s: Seq<ChunkOutcome>)
    ensures
        sum_total(s) >= 0,
        sum_matched(s) >= 0,
    decreases s.len(),
{
    if s.len() > 0 {
        lemma_sums_nonnegative(s.drop_last());
    }
}

/// Chunk sizes summed over a chunk plan.
pub open spec fn sum_sizes(s: Seq<u64>) -> int
    decreases s.len(),
{
    if s.len() == 0 {
        0
    } else {
        sum_sizes(s.drop_last()) + s.last()
    }
}

/// How many fixed-size chunks a test set of `total` examples falls into:
/// `total / batch` rounded up.
pub open spec fn spec_chunk_count(total: int, batch: int) -> int {
    (total + batch - 1) / batch
}

/// The number of evaluation chunks, computed without overflow.
pub fn chunk_count(total: u64, batch: u64) -> (n: u64)
    requires
        batch >= 1,
    ensures
        n == spec_chunk_count(total as int, batch as int),
{
    if total == 0 {
        proof {
            lemma_basic_div(batch - 1, batch as int);
        }
        0
    } else {
        proof {
            lemma_div_plus_one(total - 1, batch as int);
        }
        (total - 1) / batch + 1
    }
}

/// The evaluation chunk plan: the test set of `total` examples is walked
/// in order, in chunks of exactly `batch` examples, except that the last
/// chunk holds whatever remains. No example is skipped or repeated.
pub fn chunk_sizes(total: u64, batch: u64) -> (r: Vec<u64>)
    requires
        batch >= 1,
    ensures
        sum_sizes(r@) == total,
        forall|i: int| 0 <= i < r@.len() ==> 1 <= #[trigger] r@[i] <= batch,
        forall|i: int| 0 <= i < r@.len() - 1 ==> #[trigger] r@[i] == batch,
        r@.len() == spec_chunk_count(total as int, batch as int),
{
    let mut r: Vec<u64> = Vec::new();
    let mut remaining: u64 = total;
    while remaining > 0
        invariant
            batch >= 1,
            remaining <= total,
            sum_sizes(r@) == total - remaining,
            forall|i: int| 0 <= i < r@.len() ==> 1 <= #[trigger] r@[i] <= batch,
            remaining > 0 ==> forall|i: int| 0 <= i < r@.len() ==> #[trigger] r@[i] == batch,
            remaining == 0 ==> forall|i: int| 0 <= i < r@.len() - 1 ==> #[trigger] r@[i]
                == batch,
        decreases remaining,
    {
        let c = if remaining < batch {
            remaining
        } else {
            batch
        };
        let ghost prev = r@;
        r.push(c);
        proof {
            assert(r@.drop_last() =~= prev);
        }
        remaining = remaining - c;
    }
    proof {
        lemma_chunk_plan_len(r@, total as int, batch as int);
    }
    r
}

/// A sequence of equal sizes sums to its length times that size.
proof fn lemma_const_sum(s: Seq<u64>, size: int)
    requires
        forall|i: int| 0 <= i < s.len() ==> #[trigger] s[i] == size,
    ensures
        sum_sizes(s) == s.len() * size,
    decreases s.len(),
{
    if s.len() > 0 {
        lemma_const_sum(s.drop_last(), size);
        assert(s.len() * size == (s.len() - 1) * size + size) by (nonlinear_arith);
    }
}

/// A plan of full chunks with one final partial chunk covers exactly the
/// rounded-up number of chunks.
proof fn lemma_chunk_plan_len(s: Seq<u64>, total: int, batch: int)
    requires
        batch >= 1,
        sum_sizes(s) == total,
        forall|i: int| 0 <= i < s.len() ==> 1 <= #[trigger] s[i] <= batch,
        forall|i: int| 0 <= i < s.len() - 1 ==> #[trigger] s[i] == batch,
    ensures
        s.len() == spec_chunk_count(total, batch),
{
    if s.len() == 0 {
        lemma_basic_div(batch - 1, batch);
    } else {
        let k = s.len() as int;
        let last = s.last() as int;
        lemma_const_sum(s.drop_last(), batch);
        assert(total == (k - 1) * batch + last);
        assert(total + batch - 1 == batch * k + (last - 1)) by (nonlinear_arith)
            requires
                total == (k - 1) * batch + last,
        ;
        lemma_div_multiples_vanish_fancy(k, last - 1, batch);
    }
}

/// Evaluation is deterministic: the aggregate accuracy is a function of
/// the chunk outcomes alone, so two runs over equal outcomes — as repeated
/// passes over an unchanged model and test set produce — report equal
/// sums and hence equal accuracy.
pub proof fn lemma_evaluation_deterministic(a: Seq<ChunkOutcome>, b: Seq<ChunkOutcome>)
    requires
        a == b,
    ensures
        sum_matched(a) == sum_matched(b),
        sum_total(a) == sum_total(b),
{
}

} // verus!
