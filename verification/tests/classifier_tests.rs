use trieve_server::classifier::classify;
use trieve_server::model::{ChunkMetadata, ChunkOptions, DatasetConfig, IngestionMessage};

fn metadata(id: u128) -> ChunkMetadata {
    ChunkMetadata {
        id,
        dataset_id: 7,
        content: format!("chunk {}", id),
        tracking_id: None,
        qdrant_point_id: None,
        group_ids: None,
        link: None,
        tag_set: None,
        chunk_html: None,
        metadata: None,
        time_stamp: None,
        created_at: 0,
        updated_at: 0,
    }
}

fn plain(id: u128) -> IngestionMessage {
    IngestionMessage {
        chunk_metadata: metadata(id),
        chunk: ChunkOptions {
            chunk_vector: None,
            split_avg: None,
            group_ids: None,
            upsert_by_tracking_id: None,
            file_id: None,
        },
        dataset_id: 7,
        dataset_config: DatasetConfig {
            collisions_enabled: false,
            duplicate_distance_threshold: 1.0f32.to_bits(),
        },
        upsert_by_tracking_id: false,
    }
}

fn ids(messages: &[IngestionMessage]) -> Vec<u128> {
    messages.iter().map(|m| m.chunk_metadata.id).collect()
}

#[test]
fn a_plain_message_goes_to_the_bulk_set() {
    let m = plain(1);
    assert!(!m.is_single_upload());
    let sets = classify(vec![m]);
    assert_eq!(ids(&sets.single), Vec::<u128>::new());
    assert_eq!(ids(&sets.bulk), vec![1]);
}

#[test]
fn a_threshold_below_one_selects_the_single_path() {
    let mut m = plain(1);
    m.dataset_config.duplicate_distance_threshold = 0.95f32.to_bits();
    assert!(m.dataset_config.is_dedup_enabled());
    assert!(m.is_single_upload());
}

#[test]
fn collisions_alone_select_the_single_path() {
    let mut m = plain(1);
    m.dataset_config.collisions_enabled = true;
    assert!(m.dataset_config.is_dedup_enabled());
    assert!(m.is_single_upload());
}

#[test]
fn a_threshold_of_one_without_collisions_disables_the_probe() {
    let m = plain(1);
    assert!(!m.dataset_config.is_dedup_enabled());
}

#[test]
fn a_threshold_that_is_no_number_does_not_enable_the_probe() {
    let mut m = plain(1);
    m.dataset_config.duplicate_distance_threshold = f32::NAN.to_bits();
    assert!(!m.dataset_config.is_dedup_enabled());
}

#[test]
fn split_avg_selects_the_single_path() {
    let mut m = plain(1);
    m.chunk.split_avg = Some(true);
    assert!(m.is_single_upload());
    m.chunk.split_avg = Some(false);
    assert!(!m.is_single_upload());
}

#[test]
fn groups_select_the_single_path_only_when_there_are_some() {
    let mut m = plain(1);
    m.chunk.group_ids = Some(vec![]);
    assert!(!m.is_single_upload());
    assert_eq!(m.chunk.group_count(), 0);
    m.chunk.group_ids = Some(vec![41, 42]);
    assert!(m.is_single_upload());
    assert_eq!(m.chunk.group_count(), 2);
}

#[test]
fn upsert_by_tracking_id_selects_the_single_path() {
    let mut m = plain(1);
    m.chunk.upsert_by_tracking_id = Some(true);
    assert!(m.is_single_upload());
    m.chunk.upsert_by_tracking_id = Some(false);
    assert!(!m.is_single_upload());
}

#[test]
fn the_flag_of_the_message_itself_does_not_select_the_single_path() {
    let mut m = plain(1);
    m.upsert_by_tracking_id = true;
    assert!(!m.is_single_upload());
}

#[test]
fn a_batch_is_split_in_arrival_order() {
    let mut a = plain(1);
    a.chunk.split_avg = Some(true);
    let b = plain(2);
    let mut c = plain(3);
    c.chunk.group_ids = Some(vec![9]);
    let d = plain(4);
    let sets = classify(vec![a, b, c, d]);
    assert_eq!(ids(&sets.single), vec![1, 3]);
    assert_eq!(ids(&sets.bulk), vec![2, 4]);
}

#[test]
fn every_message_of_a_batch_with_distinct_ids_lands_in_exactly_one_set() {
    let mut batch = Vec::new();
    for id in 0..20u128 {
        let mut m = plain(id);
        if id % 3 == 0 {
            m.chunk.upsert_by_tracking_id = Some(true);
        }
        if id % 5 == 0 {
            m.dataset_config.collisions_enabled = true;
        }
        batch.push(m);
    }
    let sets = classify(batch);
    let single = ids(&sets.single);
    let bulk = ids(&sets.bulk);
    assert_eq!(single.len() + bulk.len(), 20);
    for id in 0..20u128 {
        let in_single = single.contains(&id);
        let in_bulk = bulk.contains(&id);
        assert!(in_single != in_bulk, "message {}", id);
        assert_eq!(in_single, id % 3 == 0 || id % 5 == 0);
    }
}

#[test]
fn a_message_that_shares_its_id_with_a_single_upload_is_in_neither_set() {
    let mut a = plain(1);
    a.chunk.split_avg = Some(true);
    let b = plain(1);
    let c = plain(2);
    let sets = classify(vec![a, b, c]);
    assert_eq!(ids(&sets.single), vec![1]);
    assert_eq!(ids(&sets.bulk), vec![2]);
}

#[test]
fn an_empty_batch_gives_two_empty_sets() {
    let sets = classify(vec![]);
    assert!(sets.single.is_empty());
    assert!(sets.bulk.is_empty());
}
