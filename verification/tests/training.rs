use cnn::accuracy::Accuracy;
use cnn::config::Config;
use cnn::metrics::MetricsRecorder;
use cnn::trainer::Trainer;

fn config_with(epochs: i64, log_interval: i64) -> Config {
    Config::build(
        Some(64),
        Some(1000),
        Some(epochs),
        Some(true),
        Some(false),
        Some(log_interval),
    )
    .expect("a valid configuration")
}

#[test]
fn zero_epochs_returns_immediately_with_seed_only() {
    let trainer = Trainer::new(config_with(0, 10));
    assert!(!trainer.is_running());
    assert!(!trainer.stopped_early());
    assert_eq!(trainer.recorder().len(), 1);
    let seed = trainer.recorder().get(0);
    assert_eq!(seed.accuracy.correct, 0);
    assert_eq!(seed.elapsed_ms, 0);

    let test_accuracy = Accuracy::from_counts(9000, 10000).unwrap();
    let outcome = trainer.into_outcome(test_accuracy);
    assert!(!outcome.stopped_early);
    assert_eq!(outcome.samples.len(), 1);
    assert!(outcome.test_accuracy.correct <= outcome.test_accuracy.total);
}

#[test]
fn first_batch_above_threshold_stops_run() {
    let mut trainer = Trainer::new(config_with(2, 1));
    assert!(trainer.is_running());
    assert!(trainer.wants_sample());
    let accuracy = Accuracy::from_counts(995, 1000).unwrap();
    trainer.batch_sampled(accuracy, 7);
    assert!(trainer.stopped_early());
    assert!(!trainer.is_running());
    assert_eq!(trainer.epochs_done, 0);
    assert_eq!(trainer.recorder().len(), 2);
    assert_eq!(trainer.recorder().get(1).accuracy, accuracy);
    assert_eq!(trainer.recorder().get(1).elapsed_ms, 7);

    let outcome = trainer.into_outcome(Accuracy::from_counts(9912, 10000).unwrap());
    assert!(outcome.stopped_early);
}

#[test]
fn accuracy_at_threshold_does_not_stop_run() {
    let mut trainer = Trainer::new(config_with(1, 1));
    let at_threshold = Accuracy::from_counts(99, 100).unwrap();
    trainer.batch_sampled(at_threshold, 3);
    assert!(trainer.is_running());
    assert!(!trainer.stopped_early());
}

#[test]
fn full_run_samples_every_interval_and_completes() {
    let batches_per_epoch = 401;
    let log_interval = 200;
    let epochs = 3;
    let mut trainer = Trainer::new(config_with(epochs, log_interval));
    let low = Accuracy::from_counts(600, 1000).unwrap();
    let mut now_ms: u64 = 0;
    while trainer.is_running() {
        for _ in 0..batches_per_epoch {
            if !trainer.is_running() {
                break;
            }
            now_ms += 1;
            if trainer.wants_sample() {
                trainer.batch_sampled(low, now_ms);
            } else {
                trainer.batch_unsampled();
            }
        }
        if trainer.is_running() {
            trainer.end_epoch();
        }
    }
    assert!(!trainer.stopped_early());
    assert_eq!(trainer.epochs_done, epochs);
    // Seed plus samples at within-epoch iterations 0, 200 and 400 of each
    // of the three epochs.
    assert_eq!(trainer.recorder().len(), 1 + 3 * 3);
    let outcome = trainer.into_outcome(Accuracy::from_counts(9000, 10000).unwrap());
    assert!(!outcome.stopped_early);
    assert_eq!(outcome.samples.len(), 10);
}

#[test]
fn iteration_counter_resets_each_epoch() {
    // With an interval of 3 and four batches per epoch, each epoch samples
    // at its own iterations 0 and 3: the counter restarts at every epoch.
    let mut trainer = Trainer::new(config_with(2, 3));
    let low = Accuracy::from_counts(1, 2).unwrap();
    let mut now_ms: u64 = 0;
    for _ in 0..2 {
        for _ in 0..4 {
            now_ms += 1;
            if trainer.wants_sample() {
                trainer.batch_sampled(low, now_ms);
            } else {
                trainer.batch_unsampled();
            }
        }
        trainer.end_epoch();
    }
    assert!(!trainer.is_running());
    assert_eq!(trainer.recorder().len(), 1 + 2 * 2);
}

#[test]
fn recorder_keeps_seed_first_and_time_monotonic() {
    let mut recorder = MetricsRecorder::new();
    assert_eq!(recorder.len(), 1);
    recorder.record(Accuracy::from_counts(1, 4).unwrap(), 10);
    recorder.record(Accuracy::from_counts(2, 4).unwrap(), 10);
    recorder.record(Accuracy::from_counts(3, 4).unwrap(), 25);
    assert_eq!(recorder.len(), 4);
    let first = recorder.get(0);
    assert_eq!(first.accuracy.correct, 0);
    assert_eq!(first.elapsed_ms, 0);
    let mut previous: u64 = 0;
    for i in 0..recorder.len() {
        let sample = recorder.get(i);
        assert!(sample.elapsed_ms >= previous);
        assert!(sample.accuracy.correct <= sample.accuracy.total);
        assert!(sample.accuracy.total >= 1);
        previous = sample.elapsed_ms;
    }
    assert_eq!(recorder.last_elapsed_ms(), 25);
}

#[test]
fn exceeds_threshold_is_exact() {
    assert!(Accuracy::from_counts(995, 1000).unwrap().exceeds_threshold());
    assert!(Accuracy::from_counts(100, 100).unwrap().exceeds_threshold());
    assert!(!Accuracy::from_counts(99, 100).unwrap().exceeds_threshold());
    assert!(!Accuracy::from_counts(990, 1000).unwrap().exceeds_threshold());
    assert!(!Accuracy::zero().exceeds_threshold());
    // 9901/10000 is the smallest ratio over this denominator that stops.
    assert!(Accuracy::from_counts(9901, 10000).unwrap().exceeds_threshold());
    assert!(!Accuracy::from_counts(9900, 10000).unwrap().exceeds_threshold());
}

#[test]
fn from_counts_rejects_bad_ratios() {
    assert!(Accuracy::from_counts(5, 4).is_none());
    assert!(Accuracy::from_counts(0, 0).is_none());
    assert!(Accuracy::from_counts(0, 1).is_some());
    assert!(Accuracy::from_counts(4, 4).is_some());
}
