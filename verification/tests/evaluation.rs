use cnn::eval::{chunk_count, chunk_sizes, evaluate, ChunkOutcome, Evaluator};

#[test]
fn ten_thousand_examples_make_ten_chunks_of_a_thousand() {
    let sizes = chunk_sizes(10000, 1000);
    assert_eq!(sizes.len(), 10);
    assert!(sizes.iter().all(|&s| s == 1000));
    assert_eq!(chunk_count(10000, 1000), 10);
}

#[test]
fn last_chunk_holds_the_remainder() {
    let sizes = chunk_sizes(10500, 1000);
    assert_eq!(sizes.len(), 11);
    assert_eq!(sizes[10], 500);
    assert!(sizes[..10].iter().all(|&s| s == 1000));
    assert_eq!(sizes.iter().sum::<u64>(), 10500);
    assert_eq!(chunk_count(10500, 1000), 11);

    let tiny = chunk_sizes(3, 10);
    assert_eq!(tiny, vec![3]);

    let empty = chunk_sizes(0, 10);
    assert!(empty.is_empty());
    assert_eq!(chunk_count(0, 10), 0);
}

#[test]
fn chunk_count_handles_extreme_sizes() {
    assert_eq!(chunk_count(u64::MAX, u64::MAX), 1);
    assert_eq!(chunk_count(u64::MAX, 1), u64::MAX);
    assert_eq!(chunk_count(1, u64::MAX), 1);
}

#[test]
fn evaluator_counters_reach_their_full_range() {
    let mut evaluator = Evaluator::new();
    evaluator.observe_chunk(ChunkOutcome {
        matched: u64::MAX,
        total: u64::MAX,
    });
    let accuracy = evaluator.accuracy().unwrap();
    assert_eq!(accuracy.correct, u64::MAX);
    assert_eq!(accuracy.total, u64::MAX);
    assert!(accuracy.exceeds_threshold());
}

#[test]
fn aggregate_accuracy_is_total_matches_over_total_examples() {
    let mut evaluator = Evaluator::new();
    for i in 0..10u64 {
        evaluator.observe_chunk(ChunkOutcome {
            matched: 900 + i,
            total: 1000,
        });
    }
    let accuracy = evaluator.accuracy().expect("examples were seen");
    assert_eq!(accuracy.total, 10000);
    assert_eq!(accuracy.correct, 9045);
}

#[test]
fn empty_evaluation_yields_no_accuracy() {
    let evaluator = Evaluator::new();
    assert!(evaluator.accuracy().is_none());
    let no_chunks: Vec<ChunkOutcome> = vec![];
    assert!(evaluate(&no_chunks).is_none());
}

#[test]
fn evaluate_matches_running_totals() {
    let outcomes = vec![
        ChunkOutcome { matched: 7, total: 10 },
        ChunkOutcome { matched: 10, total: 10 },
        ChunkOutcome { matched: 0, total: 5 },
    ];
    let accuracy = evaluate(&outcomes).expect("examples were seen");
    assert_eq!(accuracy.correct, 17);
    assert_eq!(accuracy.total, 25);
    assert!(accuracy.correct <= accuracy.total);
}

#[test]
fn evaluation_is_deterministic_across_calls() {
    let outcomes = vec![
        ChunkOutcome { matched: 930, total: 1000 },
        ChunkOutcome { matched: 951, total: 1000 },
        ChunkOutcome { matched: 80, total: 100 },
    ];
    let first = evaluate(&outcomes).unwrap();
    let second = evaluate(&outcomes).unwrap();
    assert_eq!(first, second);

    let mut evaluator = Evaluator::new();
    for outcome in &outcomes {
        evaluator.observe_chunk(*outcome);
    }
    assert_eq!(evaluator.accuracy().unwrap(), first);
    assert_eq!(evaluator.accuracy().unwrap(), evaluator.accuracy().unwrap());
}
