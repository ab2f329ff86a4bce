use trieve_server::model::{ChunkMetadata, ChunkOptions, DatasetConfig, IngestionMessage};
use trieve_server::queue::{batch_limit, ingestion_queue, keep_decoded, merge_batch, worker_count};

fn message(id: u128) -> IngestionMessage {
    IngestionMessage {
        chunk_metadata: ChunkMetadata {
            id,
            dataset_id: 1,
            content: String::new(),
            tracking_id: None,
            qdrant_point_id: None,
            group_ids: None,
            link: None,
            tag_set: None,
            chunk_html: None,
            metadata: None,
            time_stamp: None,
            created_at: 0,
            updated_at: 0,
        },
        chunk: ChunkOptions {
            chunk_vector: None,
            split_avg: None,
            group_ids: None,
            upsert_by_tracking_id: None,
            file_id: None,
        },
        dataset_id: 1,
        dataset_config: DatasetConfig {
            collisions_enabled: false,
            duplicate_distance_threshold: 1.0f32.to_bits(),
        },
        upsert_by_tracking_id: false,
    }
}

fn strings(values: &[&str]) -> Vec<String> {
    values.iter().map(|v| v.to_string()).collect()
}

#[test]
fn the_queue_is_called_ingestion() {
    assert_eq!(ingestion_queue(), "ingestion");
}

#[test]
fn the_blocking_payload_follows_the_batched_ones() {
    let batch = merge_batch(Some(strings(&["ingestion", "first"])), Some(strings(&["a", "b"])));
    assert_eq!(batch, strings(&["a", "b", "first"]));
}

#[test]
fn an_empty_second_reply_leaves_the_blocking_payload() {
    let batch = merge_batch(Some(strings(&["ingestion", "only"])), Some(vec![]));
    assert_eq!(batch, strings(&["only"]));
}

#[test]
fn a_failed_call_gives_an_empty_batch() {
    assert!(merge_batch(None, Some(strings(&["a"]))).is_empty());
    assert!(merge_batch(Some(strings(&["ingestion", "x"])), None).is_empty());
    assert!(merge_batch(None, None).is_empty());
}

#[test]
fn a_blocking_reply_without_a_payload_adds_nothing() {
    let batch = merge_batch(Some(strings(&["ingestion"])), Some(strings(&["a"])));
    assert_eq!(batch, strings(&["a"]));
}

#[test]
fn payloads_that_could_not_be_decoded_are_dropped() {
    let decoded = keep_decoded(vec![Some(message(1)), None, Some(message(3)), None]);
    let ids: Vec<u128> = decoded.iter().map(|m| m.chunk_metadata.id).collect();
    assert_eq!(ids, vec![1, 3]);
    assert!(keep_decoded(vec![None, None]).is_empty());
    assert!(keep_decoded(vec![]).is_empty());
}

#[test]
fn the_batch_limit_defaults_to_ten_and_is_at_least_one() {
    assert_eq!(batch_limit(None), 10);
    assert_eq!(batch_limit(Some(0)), 10);
    assert_eq!(batch_limit(Some(1)), 1);
    assert_eq!(batch_limit(Some(250)), 250);
}

#[test]
fn the_worker_count_defaults_to_twice_the_parallelism() {
    assert_eq!(worker_count(None, 4), 8);
    assert_eq!(worker_count(None, 1), 2);
    assert_eq!(worker_count(Some(3), 4), 3);
    assert_eq!(worker_count(Some(0), 4), 0);
}
