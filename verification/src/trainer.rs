//! The training control loop as an explicit state machine.
//!
//! The external backend does the numeric work batch by batch; this type
//! makes every decision: whether the next epoch starts, whether the
//! current batch is sampled, whether a sampled accuracy ends the run
//! early, and what goes into the progress log. The driver asks before
//! each step and reports what the backend produced.

use vstd::prelude::*;
use crate::accuracy::Accuracy;
use crate::config::Config;
use crate::metrics::{MetricsRecorder, MetricsSample};

verus! {

/// Where the run stands.
#[derive(Clone, Copy, Debug, PartialEq, Eq, Structural)]
pub enum RunState {
    /// Batches are still being processed.
    Running,
    /// A sampled batch accuracy exceeded the threshold; no further batch
    /// or epoch runs.
    StoppedEarly,
    /// Every configured epoch ran to its end.
    Completed,
}

/// Drives one training run: epoch and iteration bookkeeping, the sampling
/// rule, the early-stop rule, and the progress log.
#[derive(Clone, Debug)]
pub struct Trainer {
    /// The validated hyperparameters, fixed for the whole run.
    pub config: Config,
    /// Where the run stands.
    pub state: RunState,
    /// How many epochs have fully ended.
    pub epochs_done: i64,
    /// Batches processed so far in the current epoch; resets to zero when
    /// an epoch ends.
    pub iteration_count: i64,
    /// The time-ordered accuracy log, seeded before the first batch.
    pub recorder: MetricsRecorder,
}

/// The terminal result of a run, built once after training ends.
#[derive(Clone, Debug)]
pub struct TrainingOutcome {
    /// Whether the early-stop rule ended the run before its last epoch.
    pub stopped_early: bool,
    /// The aggregate accuracy over the held-out test set.
    pub test_accuracy: Accuracy,
    /// The completed progress log, in sample order.
    pub samples: Vec<MetricsSample>,
}

impl Trainer {
    /// Consistency of the bookkeeping with the configuration.
    pub open spec fn wf(self) -> bool {
        &&& self.config.wf()
        &&& self.recorder.wf()
        &&& 0 <= self.epochs_done <= self.config.epochs
        &&& 0 <= self.iteration_count
        &&& self.state is Running ==> self.epochs_done < self.config.epochs
        &&& self.state is Completed ==> self.epochs_done == self.config.epochs
    }

    /// Whether the current batch falls on the sampling rule: its
    /// within-epoch iteration number is an exact multiple of the log
    /// interval (iteration zero included).
    pub open spec fn spec_wants_sample(self) -> bool {
        self.iteration_count % self.config.log_interval == 0
    }

    /// A fresh run: nothing processed, the log seeded, and — when zero
    /// epochs are configured — already complete.
    pub fn new(config: Config) -> (t: Trainer)
        requires
            config.wf(),
        ensures
            t.wf(),
            t.config == config,
            t.epochs_done == 0,
            t.iteration_count == 0,
            t.recorder@.len() == 1,
            t.recorder@[0] == MetricsSample::spec_seed(),
            t.state is Running <==> config.epochs > 0,
            t.state is Completed <==> config.epochs == 0,
            !(t.state is StoppedEarly),
    {
        let state = if config.epochs > 0 {
            RunState::Running
        } else {
            RunState::Completed
        };
        Trainer {
            config,
            state,
            epochs_done: 0,
            iteration_count: 0,
            recorder: MetricsRecorder::new(),
        }
    }

    /// Whether another batch or epoch may run. An epoch about to start
    /// must not start unless this holds.
    pub fn is_running(&self) -> (r: bool)
        ensures
            r == (self.state is Running),
    {
        matches!(self.state, RunState::Running)
    }

    /// Whether the early-stop rule ended the run.
    pub fn stopped_early(&self) -> (r: bool)
        ensures
            r == (self.state is StoppedEarly),
    {
        matches!(self.state, RunState::StoppedEarly)
    }

    /// Asks whether the current batch must be sampled for accuracy.
    pub fn wants_sample(&self) -> (r: bool)
        requires
            self.wf(),
        ensures
            r == self.spec_wants_sample(),
    {
        self.iteration_count % self.config.log_interval == 0
    }

    /// Finishes a batch that fell on the sampling rule: logs the measured
    /// accuracy, then applies the early-stop rule. Exactly when the
    /// accuracy strictly exceeds the threshold, the run stops early —
    /// the remaining batches of this epoch and all later epochs are
    /// never reached, because no step accepts a stopped run.
    pub fn batch_sampled(&mut self, accuracy: Accuracy, elapsed_ms: u64)
        requires
            old(self).wf(),
            old(self).state is Running,
            old(self).spec_wants_sample(),
            accuracy.wf(),
            elapsed_ms >= old(self).recorder.spec_last_elapsed_ms(),
            old(self).iteration_count < i64::MAX,
        ensures
            final(self).wf(),
            final(self).config == old(self).config,
            final(self).epochs_done == old(self).epochs_done,
            final(self).recorder@ == old(self).recorder@.push(
                MetricsSample { accuracy, elapsed_ms },
            ),
            final(self).state is StoppedEarly <==> accuracy.spec_exceeds_threshold(),
            final(self).state is Running <==> !accuracy.spec_exceeds_threshold(),
            accuracy.spec_exceeds_threshold() ==> final(self).iteration_count
                == old(self).iteration_count,
            !accuracy.spec_exceeds_threshold() ==> final(self).iteration_count
                == old(self).iteration_count + 1,
    {
        self.recorder.record(accuracy, elapsed_ms);
        if accuracy.exceeds_threshold() {
            self.state = RunState::StoppedEarly;
        } else {
            self.iteration_count = self.iteration_count + 1;
        }
    }

    /// Finishes a batch that did not fall on the sampling rule: only the
    /// iteration number moves.
    pub fn batch_unsampled(&mut self)
        requires
            old(self).wf(),
            old(self).state is Running,
            !old(self).spec_wants_sample(),
            old(self).iteration_count < i64::MAX,
        ensures
            final(self).wf(),
            final(self).config == old(self).config,
            final(self).state == old(self).state,
            final(self).epochs_done == old(self).epochs_done,
            final(self).recorder@ == old(self).recorder@,
            final(self).iteration_count == old(self).iteration_count + 1,
    {
        self.iteration_count = self.iteration_count + 1;
    }

    /// Ends an epoch whose batch stream was exhausted: the iteration
    /// number resets for the next epoch, and the run completes exactly
    /// when this was the last configured epoch.
    pub fn end_epoch(&mut self)
        requires
            old(self).wf(),
            old(self).state is Running,
        ensures
            final(self).wf(),
            final(self).config == old(self).config,
            final(self).recorder@ == old(self).recorder@,
            final(self).epochs_done == old(self).epochs_done + 1,
            final(self).iteration_count == 0,
            final(self).state is Completed <==> old(self).epochs_done + 1
                == old(self).config.epochs,
            final(self).state is Running <==> old(self).epochs_done + 1
                < old(self).config.epochs,
            !(final(self).state is StoppedEarly),
    {
        self.epochs_done = self.epochs_done + 1;
        self.iteration_count = 0;
        if self.epochs_done == self.config.epochs {
            self.state = RunState::Completed;
        }
    }

    /// Read view of the progress log.
    pub fn recorder(&self) -> (r: &MetricsRecorder)
        ensures
            r == self.recorder,
    {
        &self.recorder
    }

    /// Seals a finished run into its terminal outcome: the early-stop
    /// flag, the test accuracy the evaluation produced, and the completed
    /// progress log.
    pub fn into_outcome(self, test_accuracy: Accuracy) -> (o: TrainingOutcome)
        requires
            self.wf(),
            !(self.state is Running),
            test_accuracy.wf(),
        ensures
            o.stopped_early == (self.state is StoppedEarly),
            o.test_accuracy == test_accuracy,
            o.samples@ == self.recorder@,
    {
        let stopped = self.stopped_early();
        TrainingOutcome { stopped_early: stopped, test_accuracy, samples: self.recorder.samples }
    }
}

/// The early-stop rule: from a running trainer, a sampled accuracy
/// strictly above the threshold — and only such an accuracy — moves the
/// run to `StoppedEarly`, the state in which no further batch or epoch
/// step is accepted and from which the outcome reports `stopped_early`.
pub proof fn lemma_early_stop_exact(accuracy: Accuracy)
    requires
        accuracy.wf(),
    ensures
        accuracy.spec_exceeds_threshold() <==> 100 * accuracy.correct > 99 * accuracy.total,
{
}

} // verus!
