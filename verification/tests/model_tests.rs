use trieve_server::model::{ChunkOptions, DatasetConfig};
use trieve_server::text::join_text;
use trieve_server::vectors::copy_vector;

#[test]
fn a_threshold_between_zero_and_one_makes_settings() {
    for threshold in [0.0f32, -0.0, 0.5, 0.95, 1.0] {
        let config = DatasetConfig::new(true, threshold.to_bits()).unwrap();
        assert!(config.collisions_enabled);
        assert_eq!(config.duplicate_distance_threshold, threshold.to_bits());
    }
}

#[test]
fn a_threshold_outside_the_unit_interval_makes_no_settings() {
    for threshold in [-0.1f32, 1.000_000_1, 2.0, f32::INFINITY, f32::NEG_INFINITY, f32::NAN] {
        assert_eq!(DatasetConfig::new(false, threshold.to_bits()), None, "{}", threshold);
    }
}

#[test]
fn settings_default_to_no_collisions_and_a_threshold_of_one() {
    let unset = DatasetConfig::from_settings(None, None);
    assert!(!unset.collisions_enabled);
    assert_eq!(f32::from_bits(unset.duplicate_distance_threshold), 1.0);
    assert!(!unset.is_dedup_enabled());
    let set = DatasetConfig::from_settings(Some(true), Some(0.9f32.to_bits()));
    assert!(set.collisions_enabled);
    assert_eq!(f32::from_bits(set.duplicate_distance_threshold), 0.9);
    assert!(set.is_dedup_enabled());
}

#[test]
fn options_tell_whether_a_split_is_asked_for() {
    let mut options = ChunkOptions {
        chunk_vector: None,
        split_avg: None,
        group_ids: None,
        upsert_by_tracking_id: None,
        file_id: None,
    };
    assert!(!options.is_split_requested());
    options.split_avg = Some(false);
    assert!(!options.is_split_requested());
    options.split_avg = Some(true);
    assert!(options.is_split_requested());
}

#[test]
fn texts_are_joined_and_vectors_copied() {
    assert_eq!(join_text("ab", "cd"), "abcd");
    assert_eq!(join_text("", ""), "");
    assert_eq!(copy_vector(&vec![3, 1, 2]), vec![3, 1, 2]);
    assert_eq!(copy_vector(&vec![]), Vec::<u32>::new());
}
