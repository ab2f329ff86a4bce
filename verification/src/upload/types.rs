//! The values of the single-item upload: its states, the actions it asks
//! for and the answers it takes.

use vstd::prelude::*;
use crate::events::{Event, EventView};
use crate::text::texts;
use crate::vectors::contents;

verus! {

/// The nearest stored point to a candidate vector, with its similarity.
#[derive(Debug, PartialEq, Eq, Structural, Clone, Copy)]
pub struct TopMatch {
    pub point_id: u128,
    pub score: u32,
}

/// The row that the metadata store reports after an insert: the row that
/// now holds the chunk, which is an older row when the insert was turned
/// into an update.
#[derive(Debug, PartialEq, Eq, Structural, Clone, Copy)]
pub struct StoredChunk {
    pub id: u128,
    pub qdrant_point_id: Option<u128>,
}

/// Where the pipeline stands, in the coarse terms of a message's life.
#[derive(Debug, PartialEq, Eq, Structural, Clone, Copy)]
pub enum Stage {
    Received,
    Embedded,
    Probed,
    Committed,
    Collided,
    Failed,
}

/// Where the pipeline stands, by the answer it waits for.
#[derive(Debug, PartialEq, Eq, Structural, Clone, Copy)]
pub enum Phase {
    /// Nothing has been asked yet.
    Received,
    /// Waiting for the embedding of the whole content.
    EmbeddingContent,
    /// Waiting for the embedding of the next sub-text.
    EmbeddingParts,
    /// Waiting for the mean of the sub-text embeddings.
    Averaging,
    /// Waiting for the nearest stored point.
    Probing,
    /// Waiting for the metadata rows of the point collided with.
    FetchingCollided,
    /// Waiting for the vector index to refresh the point collided with.
    UpdatingPoint,
    /// Waiting for the metadata store to insert the duplicate row.
    InsertingDuplicate,
    /// Waiting for the metadata store to insert the row.
    InsertingChunk,
    /// Waiting for the vector index to store the point.
    UpsertingPoint,
    /// Waiting for the metadata store to record the bookmark `next`.
    CreatingBookmark { next: usize },
    /// Waiting for the vector index to record the bookmark `next`.
    AddingBookmark { next: usize },
    /// Stored as a new point.
    Committed,
    /// Stored as a reference to an existing point.
    Collided,
    /// Given up.
    Failed,
}

/// The step of the pipeline that failed.
#[derive(Debug, PartialEq, Eq, Structural, Clone, Copy)]
pub enum UploadFailure {
    Embedding,
    Averaging,
    TopMatch,
    MetadataLookup,
    UpdatePoint,
    InsertDuplicate,
    InsertChunk,
    CreatePoint,
    /// An answer arrived that the pipeline was not waiting for.
    UnexpectedAnswer,
}

/// A failure of the pipeline, with what the failing collaborator said.
#[derive(Debug, Clone, PartialEq, Eq)]
pub struct UploadError {
    pub failure: UploadFailure,
    pub detail: String,
}

/// The mathematical content of an [`UploadError`].
pub struct UploadErrorView {
    pub failure: UploadFailure,
    pub detail: Seq<char>,
}

impl View for UploadError {
    type V = UploadErrorView;

    open spec fn view(&self) -> UploadErrorView {
        UploadErrorView { failure: self.failure, detail: self.detail@ }
    }
}

/// The state of one upload.
#[derive(Debug, Clone, PartialEq, Eq)]
pub struct UploadState {
    pub phase: Phase,
    /// The sub-texts to embed, when splitting was asked for.
    pub sub_texts: Vec<String>,
    /// The embeddings of the sub-texts received so far.
    pub parts: Vec<Vec<u32>>,
    /// The vector of the chunk, once known.
    pub vector: Option<Vec<u32>>,
    /// The point that carries, or will carry, the chunk's vector.
    pub point_id: u128,
    /// The row that holds, or will hold, the chunk.
    pub chunk_id: u128,
    /// The existing point that the chunk duplicates, if one was found.
    pub collision: Option<u128>,
    /// The groups whose bookmark could not be recorded.
    pub failed_bookmarks: Vec<u128>,
    /// Why the upload failed, if it did.
    pub error: Option<UploadError>,
}

/// The mathematical content of an [`UploadState`].
pub struct UploadStateView {
    pub phase: Phase,
    pub sub_texts: Seq<Seq<char>>,
    pub parts: Seq<Seq<u32>>,
    pub vector: Option<Seq<u32>>,
    pub point_id: u128,
    pub chunk_id: u128,
    pub collision: Option<u128>,
    pub failed_bookmarks: Seq<u128>,
    pub error: Option<UploadErrorView>,
}

impl View for UploadState {
    type V = UploadStateView;

    open spec fn view(&self) -> UploadStateView {
        UploadStateView {
            phase: self.phase,
            sub_texts: texts(self.sub_texts@),
            parts: contents(self.parts@),
            vector: match self.vector {
                Some(v) => Some(v@),
                None => None,
            },
            point_id: self.point_id,
            chunk_id: self.chunk_id,
            collision: self.collision,
            failed_bookmarks: self.failed_bookmarks@,
            error: match self.error {
                Some(e) => Some(e@),
                None => None,
            },
        }
    }
}

/// What the caller is asked to do next.
#[derive(Debug, Clone, PartialEq, Eq)]
pub enum UploadAction {
    /// Ask the embedding service for the vector of `text`, as a document.
    Embed { text: String },
    /// Compute the componentwise mean of `vectors`; they are of one length
    /// and at least one.
    Average { vectors: Vec<Vec<u32>> },
    /// Ask the vector index for the nearest point of the dataset.
    Probe { vector: Vec<u32>, dataset_id: u128 },
    /// Ask the metadata store for the rows that reference the point.
    FetchPointMetadata { point_id: u128 },
    /// Ask the vector index to update the point, with no new vector and no
    /// new payload.
    UpdatePoint { point_id: u128, dataset_id: u128 },
    /// Ask the metadata store to insert the chunk as a duplicate that
    /// references the point `collision`.
    InsertDuplicate { collision: u128, file_id: Option<u128> },
    /// Ask the metadata store to insert the chunk with `point_id` as its
    /// point, or to update the row of its tracking id.
    InsertChunk { point_id: u128, file_id: Option<u128>, dataset_id: u128, upsert_by_tracking_id: bool },
    /// Ask the vector index to store the point.
    UpsertPoint { point_id: u128, vector: Vec<u32>, dataset_id: u128 },
    /// Ask the metadata store to record the bookmark.
    CreateBookmark { group_id: u128, chunk_id: u128 },
    /// Ask the vector index to add the group to the point's payload.
    AddBookmark { point_id: u128, group_id: u128 },
    /// Hand the event to the event sink; the upload is over.
    Conclude { event: Event },
    /// Nothing: the upload was over before.
    Idle,
}

/// The mathematical content of an [`UploadAction`].
pub enum UploadActionView {
    Embed { text: Seq<char> },
    Average { vectors: Seq<Seq<u32>> },
    Probe { vector: Seq<u32>, dataset_id: u128 },
    FetchPointMetadata { point_id: u128 },
    UpdatePoint { point_id: u128, dataset_id: u128 },
    InsertDuplicate { collision: u128, file_id: Option<u128> },
    InsertChunk { point_id: u128, file_id: Option<u128>, dataset_id: u128, upsert_by_tracking_id: bool },
    UpsertPoint { point_id: u128, vector: Seq<u32>, dataset_id: u128 },
    CreateBookmark { group_id: u128, chunk_id: u128 },
    AddBookmark { point_id: u128, group_id: u128 },
    Conclude { event: EventView },
    Idle,
}

impl View for UploadAction {
    type V = UploadActionView;

    open spec fn view(&self) -> UploadActionView {
        match self {
            UploadAction::Embed { text } => UploadActionView::Embed { text: text@ },
            UploadAction::Average { vectors } => UploadActionView::Average {
                vectors: contents(vectors@),
            },
            UploadAction::Probe { vector, dataset_id } => UploadActionView::Probe {
                vector: vector@,
                dataset_id: *dataset_id,
            },
            UploadAction::FetchPointMetadata { point_id } => UploadActionView::FetchPointMetadata {
                point_id: *point_id,
            },
            UploadAction::UpdatePoint { point_id, dataset_id } => UploadActionView::UpdatePoint {
                point_id: *point_id,
                dataset_id: *dataset_id,
            },
            UploadAction::InsertDuplicate { collision, file_id } => {
                UploadActionView::InsertDuplicate { collision: *collision, file_id: *file_id }
            },
            UploadAction::InsertChunk { point_id, file_id, dataset_id, upsert_by_tracking_id } => {
                UploadActionView::InsertChunk {
                    point_id: *point_id,
                    file_id: *file_id,
                    dataset_id: *dataset_id,
                    upsert_by_tracking_id: *upsert_by_tracking_id,
                }
            },
            UploadAction::UpsertPoint { point_id, vector, dataset_id } => {
                UploadActionView::UpsertPoint {
                    point_id: *point_id,
                    vector: vector@,
                    dataset_id: *dataset_id,
                }
            },
            UploadAction::CreateBookmark { group_id, chunk_id } => {
                UploadActionView::CreateBookmark { group_id: *group_id, chunk_id: *chunk_id }
            },
            UploadAction::AddBookmark { point_id, group_id } => UploadActionView::AddBookmark {
                point_id: *point_id,
                group_id: *group_id,
            },
            UploadAction::Conclude { event } => UploadActionView::Conclude { event: event@ },
            UploadAction::Idle => UploadActionView::Idle,
        }
    }
}

/// The answer to the action asked last. A failure carries what the
/// collaborator said.
#[derive(Debug, PartialEq, Eq)]
pub enum UploadEvent {
    /// No action was asked yet.
    Start,
    /// The embedding service answered.
    Embedded(Result<Vec<u32>, String>),
    /// The mean was computed.
    Averaged(Vec<u32>),
    /// The duplicate probe answered.
    Probed(Result<TopMatch, String>),
    /// The metadata store answered with this many rows.
    Fetched(Result<usize, String>),
    /// The metadata store inserted, or updated, the chunk's row.
    Inserted(Result<StoredChunk, String>),
    /// A call without a result answered.
    Done(Result<(), String>),
}

} // verus!
