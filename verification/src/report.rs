//! Mapping of the progress log to the 2-D accuracy-over-time chart
//! series. The pixel rendering itself is external; what is built here is
//! the ordered point sequence and the axis bounds.

use vstd::prelude::*;
use crate::accuracy::Accuracy;
use crate::metrics::{MetricsRecorder, MetricsSample};

verus! {

/// One chart point: elapsed milliseconds on the x-axis, exact accuracy on
/// the y-axis.
#[derive(Clone, Copy, Debug, PartialEq, Eq, Structural)]
pub struct ChartPoint {
    /// Milliseconds since the run's reference point.
    pub x_ms: u64,
    /// The accuracy sampled at that moment. The y-axis domain is always
    /// the fixed interval `[0, 1]` that a well-formed accuracy lies in.
    pub y: Accuracy,
}

/// The chart series: every sample as a point, in sample order, plus the
/// inclusive x-axis upper bound. The x-axis domain is `0` to `x_max`.
#[derive(Clone, Debug)]
pub struct ChartSeries {
    /// The points, one per sample, in sample order.
    pub points: Vec<ChartPoint>,
    /// The largest elapsed time among the samples.
    pub x_max: u64,
}

/// Why no chart could be built.
#[derive(Clone, Copy, Debug, PartialEq, Eq, Structural)]
pub enum ChartError {
    /// An empty sample sequence establishes no x-axis domain.
    EmptySeries,
}

/// The largest elapsed time in a sample sequence; zero for the empty one.
pub open spec fn spec_max_elapsed(s: Seq<MetricsSample>) -> int
    decreases s.len(),
{
    if s.len() == 0 {
        0
    } else if spec_max_elapsed(s.drop_last()) >= s.last().elapsed_ms {
        spec_max_elapsed(s.drop_last())
    } else {
        s.last().elapsed_ms as int
    }
}

/// Builds the chart series from a sample sequence: one point per sample,
/// order preserved, x-axis bound the largest elapsed time. Fails exactly
/// when the sequence is empty — which a seeded progress log never is.
pub fn build_chart(samples: &Vec<MetricsSample>) -> (r: Result<ChartSeries, ChartError>)
    ensures
        r is Err <==> samples@.len() == 0,
        r matches Err(e) ==> e is EmptySeries,
        r matches Ok(c) ==> c.points@.len() == samples@.len(),
        r matches Ok(c) ==> (forall|i: int|
            0 <= i < samples@.len() ==> (#[trigger] c.points@[i]).x_ms == samples@[i].elapsed_ms
                && c.points@[i].y == samples@[i].accuracy),
        r matches Ok(c) ==> c.x_max == spec_max_elapsed(samples@),
{
    if samples.len() == 0 {
        return Err(ChartError::EmptySeries);
    }
    let mut points: Vec<ChartPoint> = Vec::new();
    let mut x_max: u64 = 0;
    let mut i: usize = 0;
    while i < samples.len()
        invariant
            i <= samples@.len(),
            points@.len() == i,
            forall|k: int|
                0 <= k < i ==> (#[trigger] points@[k]).x_ms == samples@[k].elapsed_ms
                    && points@[k].y == samples@[k].accuracy,
            x_max == spec_max_elapsed(samples@.take(i as int)),
        decreases samples@.len() - i,
    {
        let s = samples[i];
        points.push(ChartPoint { x_ms: s.elapsed_ms, y: s.accuracy });
        proof {
            lemma_max_elapsed_step(samples@, i as int);
        }
        if s.elapsed_ms > x_max {
            x_max = s.elapsed_ms;
        }
        i = i + 1;
    }
    proof {
        assert(samples@.take(samples@.len() as int) =~= samples@);
    }
    Ok(ChartSeries { points, x_max })
}

/// Extending a prefix by one sample raises the maximum to that sample's
/// time exactly when it is the larger.
proof fn lemma_max_elapsed_step(s: Seq<MetricsSample>, i: int)
    requires
        0 <= i < s.len(),
    ensures
        spec_max_elapsed(s.take(i + 1)) == if s[i].elapsed_ms > spec_max_elapsed(s.take(i)) {
            s[i].elapsed_ms as int
        } else {
            spec_max_elapsed(s.take(i))
        },
{
    assert(s.take(i + 1).drop_last() =~= s.take(i));
    assert(s.take(i + 1).last() == s[i]);
}

/// Builds the chart for a well-formed progress log. The seed sample rules
/// the empty case out, and because time is monotonic the x-axis bound is
/// the newest sample's time.
pub fn chart_from_recorder(rec: &MetricsRecorder) -> (c: ChartSeries)
    requires
        rec.wf(),
    ensures
        c.points@.len() == rec@.len(),
        forall|i: int|
            0 <= i < rec@.len() ==> (#[trigger] c.points@[i]).x_ms == rec@[i].elapsed_ms
                && c.points@[i].y == rec@[i].accuracy,
        c.x_max == rec.spec_last_elapsed_ms(),
{
    proof {
        lemma_sorted_max_is_last(rec@);
    }
    let r = build_chart(rec.samples());
    match r {
        Ok(c) => c,
        Err(_) => {
            proof {
                assert(false);
            }
            ChartSeries { points: Vec::new(), x_max: 0 }
        },
    }
}

/// In a time-ordered, non-empty sample sequence the largest elapsed time
/// is the newest sample's.
proof fn lemma_sorted_max_is_last(s: Seq<MetricsSample>)
    requires
        s.len() >= 1,
        forall|i: int, j: int| 0 <= i <= j < s.len() ==> s[i].elapsed_ms <= s[j].elapsed_ms,
    ensures
        spec_max_elapsed(s) == s.last().elapsed_ms,
    decreases s.len(),
{
    if s.len() == 1 {
        assert(s.drop_last().len() == 0);
        assert(spec_max_elapsed(s.drop_last()) == 0);
    } else {
        let t = s.drop_last();
        assert forall|i: int, j: int| 0 <= i <= j < t.len() implies t[i].elapsed_ms
            <= t[j].elapsed_ms by {
            assert(t[i] == s[i]);
            assert(t[j] == s[j]);
        }
        lemma_sorted_max_is_last(t);
        assert(t.last() == s[s.len() - 2]);
        assert(s[s.len() - 2].elapsed_ms <= s[s.len() - 1].elapsed_ms);
    }
}

} // verus!
