use persia_core::fanout::{aggregate_fanout, partition_batch};

#[test]
fn partition_splits_evenly_with_remainder_in_last_chunk() {
    let batch: Vec<u32> = (0..10).collect();
    let chunks = partition_batch(batch, 3);
    assert_eq!(chunks.len(), 3);
    assert_eq!(chunks[0], vec![0, 1, 2]);
    assert_eq!(chunks[1], vec![3, 4, 5]);
    assert_eq!(chunks[2], vec![6, 7, 8, 9]);
}

#[test]
fn partition_concatenation_reproduces_batch_order() {
    let batch: Vec<u32> = (0..23).collect();
    let chunks = partition_batch(batch.clone(), 4);
    let rebuilt: Vec<u32> = chunks.into_iter().flatten().collect();
    assert_eq!(rebuilt, batch);
}

#[test]
fn partition_exact_division_has_equal_chunks() {
    let batch: Vec<u32> = (0..6).collect();
    let chunks = partition_batch(batch, 3);
    assert_eq!(chunks.len(), 3);
    for c in &chunks {
        assert_eq!(c.len(), 2);
    }
}

#[test]
fn partition_more_shards_than_entries_fills_only_last() {
    let batch: Vec<u32> = vec![7, 8];
    let chunks = partition_batch(batch, 5);
    assert_eq!(chunks.len(), 5);
    for c in &chunks[..4] {
        assert!(c.is_empty());
    }
    assert_eq!(chunks[4], vec![7, 8]);
}

#[test]
fn partition_single_shard_takes_everything() {
    let batch: Vec<u32> = (0..4).collect();
    let chunks = partition_batch(batch.clone(), 1);
    assert_eq!(chunks.len(), 1);
    assert_eq!(chunks[0], batch);
}

#[test]
fn one_failure_among_four_fails_the_aggregate() {
    let results: Vec<Result<Result<(), String>, String>> = vec![
        Ok(Ok(())),
        Err(String::from("boom")),
        Ok(Ok(())),
        Ok(Ok(())),
    ];
    assert_eq!(aggregate_fanout(results), Err(String::from("boom")));
}

#[test]
fn aggregate_all_ok_is_ok() {
    let results: Vec<Result<Result<(), String>, String>> =
        vec![Ok(Ok(())), Ok(Ok(())), Ok(Ok(()))];
    assert_eq!(aggregate_fanout(results), Ok(()));
}

#[test]
fn aggregate_reports_transport_errors_first() {
    let results: Vec<Result<Result<(), String>, String>> = vec![
        Ok(Err(String::from("app0"))),
        Err(String::from("t1")),
    ];
    assert_eq!(aggregate_fanout(results), Err(String::from("t1")));
}

#[test]
fn aggregate_reports_first_application_error() {
    let results: Vec<Result<Result<(), String>, String>> = vec![
        Ok(Ok(())),
        Ok(Err(String::from("app1"))),
        Ok(Err(String::from("app2"))),
    ];
    assert_eq!(aggregate_fanout(results), Err(String::from("app1")));
}

#[test]
fn aggregate_of_nothing_is_ok() {
    let results: Vec<Result<Result<(), String>, String>> = Vec::new();
    assert_eq!(aggregate_fanout(results), Ok(()));
}
