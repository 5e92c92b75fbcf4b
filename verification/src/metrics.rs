//! The append-only, time-ordered log of accuracy samples taken while
//! training runs.

use vstd::prelude::*;
use crate::accuracy::Accuracy;

verus! {

/// One progress sample: the accuracy measured on a training batch and the
/// whole milliseconds elapsed since the run's single reference point.
#[derive(Clone, Copy, Debug, PartialEq, Eq, Structural)]
pub struct MetricsSample {
    /// Exact batch accuracy at the moment of the sample.
    pub accuracy: Accuracy,
    /// Milliseconds since the reference point captured before the first
    /// epoch; never decreases from one sample to the next.
    pub elapsed_ms: u64,
}

impl MetricsSample {
    /// The sentinel entry every log starts with: zero accuracy at time zero.
    pub open spec fn spec_seed() -> MetricsSample {
        MetricsSample { accuracy: Accuracy::spec_zero(), elapsed_ms: 0 }
    }
}

/// Ordered log of `MetricsSample` values. Samples are only ever appended,
/// so insertion order is time order; the log always starts with the seed
/// sample, even when no training batch runs at all.
#[derive(Clone, Debug)]
pub struct MetricsRecorder {
    /// The samples, oldest first; index zero is the seed.
    pub samples: Vec<MetricsSample>,
}

impl View for MetricsRecorder {
    type V = Seq<MetricsSample>;

    open spec fn view(&self) -> Seq<MetricsSample> {
        self.samples@
    }
}

impl MetricsRecorder {
    /// A well-formed log: non-empty, seeded, every accuracy a ratio in
    /// `[0, 1]`, and timestamps non-decreasing in sample order.
    pub open spec fn wf(self) -> bool {
        &&& self@.len() >= 1
        &&& self@[0] == MetricsSample::spec_seed()
        &&& forall|i: int| 0 <= i < self@.len() ==> (#[trigger] self@[i]).accuracy.wf()
        &&& forall|i: int, j: int|
            0 <= i <= j < self@.len() ==> self@[i].elapsed_ms <= self@[j].elapsed_ms
    }

    /// Timestamp of the newest sample; every later sample must be at or
    /// after it.
    pub open spec fn spec_last_elapsed_ms(self) -> u64 {
        self@.last().elapsed_ms
    }

    /// A fresh log holding exactly the seed sample `(0, 0)`.
    pub fn new() -> (r: MetricsRecorder)
        ensures
            r.wf(),
            r@.len() == 1,
            r@[0] == MetricsSample::spec_seed(),
    {
        let seed = MetricsSample { accuracy: Accuracy::zero(), elapsed_ms: 0 };
        MetricsRecorder { samples: vec![seed] }
    }

    /// Appends one sample. The caller supplies a timestamp at or after the
    /// newest one, which the strictly sequential batch loop guarantees.
    pub fn record(&mut self, accuracy: Accuracy, elapsed_ms: u64)
        requires
            old(self).wf(),
            accuracy.wf(),
            elapsed_ms >= old(self).spec_last_elapsed_ms(),
        ensures
            final(self).wf(),
            final(self)@ == old(self)@.push(MetricsSample { accuracy, elapsed_ms }),
            final(self).spec_last_elapsed_ms() == elapsed_ms,
    {
        self.samples.push(MetricsSample { accuracy, elapsed_ms });
    }

    /// Timestamp of the newest sample.
    pub fn last_elapsed_ms(&self) -> (r: u64)
        requires
            self.wf(),
        ensures
            r == self.spec_last_elapsed_ms(),
    {
        self.samples[self.samples.len() - 1].elapsed_ms
    }

    /// How many samples the log holds (the seed included).
    pub fn len(&self) -> (n: usize)
        ensures
            n == self@.len(),
    {
        self.samples.len()
    }

    /// The sample at position `i`, counting from the seed at position zero.
    pub fn get(&self, i: usize) -> (s: MetricsSample)
        requires
            i < self@.len(),
        ensures
            s == self@[i as int],
    {
        self.samples[i]
    }

    /// Read view of the whole log, in sample order.
    pub fn samples(&self) -> (r: &Vec<MetricsSample>)
        ensures
            r@ == self@,
    {
        &self.samples
    }
}

/// Time is monotonic: in a well-formed log, elapsed milliseconds never
/// decrease in sample order.
pub proof fn lemma_time_monotonic(r: MetricsRecorder, i: int, j: int)
    requires
        r.wf(),
        0 <= i <= j < r@.len(),
    ensures
        r@[i].elapsed_ms <= r@[j].elapsed_ms,
{
}

/// Every recorded accuracy is a ratio in `[0, 1]` over exact counts.
pub proof fn lemma_recorded_accuracy_in_unit_interval(r: MetricsRecorder, i: int)
    requires
        r.wf(),
        0 <= i < r@.len(),
    ensures
        0 <= r@[i].accuracy.correct <= r@[i].accuracy.total,
        r@[i].accuracy.total >= 1,
{
}

/// A well-formed log always starts with the seed sample `(0, 0)`, no
/// matter how many training batches ran.
pub proof fn lemma_seed_sample_first(r: MetricsRecorder)
    requires
        r.wf(),
    ensures
        r@.len() >= 1,
        r@[0].accuracy == Accuracy::spec_zero(),
        r@[0].elapsed_ms == 0,
{
}

} // verus!
