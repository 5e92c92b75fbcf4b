//! Exact accuracy values and the early-stop threshold.

use vstd::prelude::*;

verus! {

/// Numerator of the early-stop threshold: training stops once a sampled
/// batch accuracy strictly exceeds `EARLY_STOP_NUM / EARLY_STOP_DEN`.
pub const EARLY_STOP_NUM: u64 = 99;

/// Denominator of the early-stop threshold.
pub const EARLY_STOP_DEN: u64 = 100;

/// The share of examples in a batch whose predicted class matched the
/// label, kept as the exact pair (matched count, example count) so that no
/// rounding enters the stopping rule or the progress log.
#[derive(Clone, Copy, Debug, PartialEq, Eq, Structural)]
pub struct Accuracy {
    /// How many examples were classified correctly.
    pub correct: u64,
    /// How many examples the batch held; always at least one.
    pub total: u64,
}

impl Accuracy {
    /// A well-formed accuracy is a ratio in `[0, 1]`: at most `total` of
    /// the `total` examples matched, and the batch was not empty.
    pub open spec fn wf(self) -> bool {
        self.correct <= self.total && self.total >= 1
    }

    /// The zero accuracy that seeds the progress log before training starts.
    pub open spec fn spec_zero() -> Accuracy {
        Accuracy { correct: 0, total: 1 }
    }

    /// Whether this value strictly exceeds the early-stop threshold, as a
    /// comparison of exact ratios: `correct / total > 99 / 100`.
    pub open spec fn spec_exceeds_threshold(self) -> bool {
        EARLY_STOP_DEN * self.correct > EARLY_STOP_NUM * self.total
    }

    /// The zero accuracy, ratio `0 / 1`.
    pub fn zero() -> (r: Accuracy)
        ensures
            r == Self::spec_zero(),
            r.wf(),
    {
        Accuracy { correct: 0, total: 1 }
    }

    /// Builds an accuracy from counts; `None` exactly when the counts do
    /// not form a ratio in `[0, 1]` (empty batch, or more matches than
    /// examples).
    pub fn from_counts(correct: u64, total: u64) -> (r: Option<Accuracy>)
        ensures
            r is Some <==> correct <= total && total >= 1,
            r matches Some(a) ==> a == (Accuracy { correct, total }) && a.wf(),
    {
        if correct <= total && total >= 1 {
            Some(Accuracy { correct, total })
        } else {
            None
        }
    }

    /// Decides the early-stop comparison exactly, without overflow.
    pub fn exceeds_threshold(&self) -> (r: bool)
        requires
            self.wf(),
        ensures
            r == self.spec_exceeds_threshold(),
    {
        let c: u128 = self.correct as u128;
        let t: u128 = self.total as u128;
        let num: u128 = EARLY_STOP_NUM as u128;
        let den: u128 = EARLY_STOP_DEN as u128;
        proof {
            assert(den * c <= u128::MAX && num * t <= u128::MAX) by (nonlinear_arith)
                requires
                    c <= u64::MAX,
                    t <= u64::MAX,
                    num <= u64::MAX,
                    den <= u64::MAX,
            ;
        }
        den * c > num * t
    }
}

/// Every well-formed accuracy is a ratio in `[0, 1]`: over the exact
/// counts, `0 <= correct <= total` with `total >= 1`.
pub proof fn lemma_accuracy_in_unit_interval(a: Accuracy)
    requires
        a.wf(),
    ensures
        0 <= a.correct <= a.total,
        a.total >= 1,
{
}

} // verus!
