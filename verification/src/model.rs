//! The data that travels through the ingestion pipeline.
//!
//! Identifiers are 128-bit values (the integer form of a UUID). Embedding
//! components and thresholds are single-precision bit patterns, see
//! [`crate::score`].

use vstd::prelude::*;
use crate::score::{in_unit_interval, is_at_least, is_less, less_than, ONE_BITS, ZERO_BITS};

verus! {

/// Per-dataset settings that the pipeline reads.
#[derive(Debug, PartialEq, Eq, Structural, Clone, Copy)]
pub struct DatasetConfig {
    /// Whether near-duplicate chunks are collapsed onto one point.
    pub collisions_enabled: bool,
    /// Similarity from which two chunks count as duplicates.
    pub duplicate_distance_threshold: u32,
}

impl DatasetConfig {
    /// The threshold is a number between 0 and 1.
    pub open spec fn valid(&self) -> bool {
        in_unit_interval(self.duplicate_distance_threshold)
    }

    /// Whether the duplicate probe runs for this dataset: the threshold is
    /// below one, or collisions are switched on.
    pub open spec fn dedup_enabled(&self) -> bool {
        less_than(self.duplicate_distance_threshold, ONE_BITS) || self.collisions_enabled
    }

    /// The settings with the given threshold, which has to be a number
    /// between 0 and 1; nothing for any other threshold.
    pub fn new(collisions_enabled: bool, duplicate_distance_threshold: u32) -> (config: Option<
        DatasetConfig,
    >)
        ensures
            config is Some <==> in_unit_interval(duplicate_distance_threshold),
            config matches Some(c) ==> c.valid() && c.collisions_enabled == collisions_enabled
                && c.duplicate_distance_threshold == duplicate_distance_threshold,
    {
        if is_at_least(duplicate_distance_threshold, ZERO_BITS) && is_at_least(
            ONE_BITS,
            duplicate_distance_threshold,
        ) {
            Some(DatasetConfig { collisions_enabled, duplicate_distance_threshold })
        } else {
            None
        }
    }

    /// The settings as a dataset gives them: collisions are off and the
    /// threshold is one where the dataset says nothing.
    pub fn from_settings(collisions_enabled: Option<bool>, duplicate_distance_threshold: Option<u32>) -> (
        config: DatasetConfig
    )
        ensures
            config.collisions_enabled == match collisions_enabled {
                Some(enabled) => enabled,
                None => false,
            },
            config.duplicate_distance_threshold == match duplicate_distance_threshold {
                Some(threshold) => threshold,
                None => ONE_BITS,
            },
    {
        DatasetConfig {
            collisions_enabled: match collisions_enabled {
                Some(enabled) => enabled,
                None => false,
            },
            duplicate_distance_threshold: match duplicate_distance_threshold {
                Some(threshold) => threshold,
                None => ONE_BITS,
            },
        }
    }

    /// Computes [`Self::dedup_enabled`].
    pub fn is_dedup_enabled(&self) -> (enabled: bool)
        ensures
            enabled == self.dedup_enabled(),
    {
        is_less(self.duplicate_distance_threshold, ONE_BITS) || self.collisions_enabled
    }
}

/// One row of the metadata store.
#[derive(Debug, Clone, PartialEq, Eq)]
pub struct ChunkMetadata {
    pub id: u128,
    pub dataset_id: u128,
    pub content: String,
    /// Caller-supplied key, unique within a dataset.
    pub tracking_id: Option<String>,
    /// The point of the vector index that carries this chunk's vector.
    pub qdrant_point_id: Option<u128>,
    pub group_ids: Option<Vec<u128>>,
    pub link: Option<String>,
    pub tag_set: Option<String>,
    pub chunk_html: Option<String>,
    /// Free-form metadata, as JSON text.
    pub metadata: Option<String>,
    pub time_stamp: Option<i64>,
    pub created_at: i64,
    pub updated_at: i64,
}

/// What the sender asked for besides the chunk itself.
#[derive(Debug, Clone, PartialEq, Eq)]
pub struct ChunkOptions {
    /// A precomputed embedding; when present no embedding is requested.
    pub chunk_vector: Option<Vec<u32>>,
    /// Split the content, embed the parts and store their mean.
    pub split_avg: Option<bool>,
    /// Groups to bookmark the chunk into once it is stored.
    pub group_ids: Option<Vec<u128>>,
    pub upsert_by_tracking_id: Option<bool>,
    pub file_id: Option<u128>,
}

/// A decoded ingestion request.
#[derive(Debug, Clone, PartialEq, Eq)]
pub struct IngestionMessage {
    pub chunk_metadata: ChunkMetadata,
    pub chunk: ChunkOptions,
    pub dataset_id: u128,
    pub dataset_config: DatasetConfig,
    pub upsert_by_tracking_id: bool,
}

impl ChunkMetadata {
    /// The tracking id as text, if the chunk has one.
    pub open spec fn tracking_text(&self) -> Option<Seq<char>> {
        match self.tracking_id {
            Some(t) => Some(t@),
            None => None,
        }
    }

    /// The groups that the chunk's metadata names; none when it names none.
    pub open spec fn groups(&self) -> Seq<u128> {
        match self.group_ids {
            Some(g) => g@,
            None => Seq::empty(),
        }
    }
}

impl ChunkOptions {
    /// The groups to bookmark into; none when the option is absent.
    pub open spec fn groups(&self) -> Seq<u128> {
        match self.group_ids {
            Some(ids) => ids@,
            None => Seq::empty(),
        }
    }

    /// Whether splitting and averaging was asked for.
    pub open spec fn wants_split(&self) -> bool {
        self.split_avg == Some(true)
    }

    /// Number of groups to bookmark into.
    pub fn group_count(&self) -> (n: usize)
        ensures
            n == self.groups().len(),
    {
        match &self.group_ids {
            Some(ids) => ids.len(),
            None => 0,
        }
    }

    /// Computes [`Self::wants_split`].
    pub fn is_split_requested(&self) -> (split: bool)
        ensures
            split == self.wants_split(),
    {
        match self.split_avg {
            Some(flag) => flag,
            None => false,
        }
    }
}

impl IngestionMessage {
    /// The rule of the single-item path: a message takes it when the
    /// duplicate probe is enabled for its dataset, when it asks for
    /// split-and-average, when it names at least one group, or when it asks
    /// to upsert by tracking id.
    pub open spec fn takes_single_path(&self) -> bool {
        ||| self.dataset_config.dedup_enabled()
        ||| self.chunk.wants_split()
        ||| self.chunk.groups().len() > 0
        ||| self.chunk.upsert_by_tracking_id == Some(true)
    }

    /// Computes [`Self::takes_single_path`].
    pub fn is_single_upload(&self) -> (single: bool)
        ensures
            single == self.takes_single_path(),
    {
        let upsert = match self.chunk.upsert_by_tracking_id {
            Some(flag) => flag,
            None => false,
        };
        self.dataset_config.is_dedup_enabled() || self.chunk.is_split_requested()
            || self.chunk.group_count() > 0 || upsert
    }
}

} // verus!
