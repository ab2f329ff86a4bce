//! The single-item upload in executable form.

use vstd::prelude::*;
use crate::chunker::{averaging_dimension, coarse_split, AverageError};
use crate::errors::ServiceError;
use crate::events::{Event, EventType};
use crate::ids::{is_random_layout, random_id, resolve_id};
use crate::model::IngestionMessage;
use crate::score::is_at_least;
use crate::text::{join_text, debug_quoted};
use crate::upload::rules::{
    average_message, averaging_failed, bookmark_created, bookmark_from, bookmark_settled,
    collided_point, fail, failure_prefix, initial_state, inserted, is_final, part_embedded,
    persist_new, probed, resolved, stage_of, start, step, unexpected, uploaded_event,
};
use crate::upload::types::{
    Phase, Stage, StoredChunk, TopMatch, UploadAction, UploadError, UploadEvent, UploadFailure,
    UploadState,
};
use crate::vectors::{contents, copy_vector};

verus! {

fn prefix_of(failure: UploadFailure) -> (prefix: &'static str)
    ensures
        prefix@ == failure_prefix(failure),
{
    match failure {
        UploadFailure::Embedding => "Failed to create embedding: ",
        UploadFailure::Averaging => "Failed to average embeddings: ",
        UploadFailure::TopMatch => "Failed to get top match: ",
        UploadFailure::MetadataLookup => "Failed to get chunk metadata: ",
        UploadFailure::UpdatePoint => "Failed to update qdrant point: ",
        UploadFailure::InsertDuplicate => "Failed to insert duplicate chunk metadata: ",
        UploadFailure::InsertChunk => "Failed to insert chunk metadata: ",
        UploadFailure::CreatePoint => "Failed to create new qdrant point: ",
        UploadFailure::UnexpectedAnswer => "Unexpected answer: ",
    }
}

fn average_text(error: AverageError) -> (text: &'static str)
    ensures
        text@ == average_message(error),
{
    match error {
        AverageError::NoVectors => "No embeddings to average",
        AverageError::ShapeMismatch => "Embeddings differ in length",
    }
}

impl UploadError {
    /// The failure as the service reports it: an internal error with the
    /// failure's message.
    pub fn to_service_error(&self) -> (error: ServiceError)
        ensures
            error matches ServiceError::InternalServerError(m) && m@ == self@.message(),
    {
        ServiceError::InternalServerError(join_text(prefix_of(self.failure), self.detail.as_str()))
    }

    /// The error text of the failure event.
    pub fn to_event_text(&self) -> (text: String)
        ensures
            text@ == self@.event_text(),
    {
        let rendered = self.to_service_error().to_debug_text();
        join_text("Failed to upload chunk: ", rendered.as_str())
    }
}

fn uploaded(message: &IngestionMessage) -> (event: Event)
    ensures
        event@ == uploaded_event(*message),
{
    Event {
        dataset_id: message.chunk_metadata.dataset_id,
        event_type: EventType::CardUploaded { chunk_id: message.chunk_metadata.id },
    }
}

fn fail_with(
    message: &IngestionMessage,
    state: UploadState,
    failure: UploadFailure,
    detail: String,
) -> (next: (UploadState, UploadAction))
    ensures
        (next.0@, next.1@) == fail(*message, state@, failure, detail@),
{
    let error = UploadError { failure, detail };
    let event = Event {
        dataset_id: message.chunk_metadata.dataset_id,
        event_type: EventType::CardUploadFailed {
            chunk_id: message.chunk_metadata.id,
            error: error.to_event_text(),
        },
    };
    let mut after = state;
    after.phase = Phase::Failed;
    after.error = Some(error);
    (after, UploadAction::Conclude { event })
}

fn reject(message: &IngestionMessage, state: UploadState) -> (next: (UploadState, UploadAction))
    ensures
        (next.0@, next.1@) == unexpected(*message, state@),
{
    fail_with(
        message,
        state,
        UploadFailure::UnexpectedAnswer,
        String::from_str("the answer does not fit the pending action"),
    )
}

fn fail_averaging(message: &IngestionMessage, state: UploadState, error: AverageError) -> (next: (
    UploadState,
    UploadAction,
))
    ensures
        (next.0@, next.1@) == averaging_failed(*message, state@, error),
{
    fail_with(message, state, UploadFailure::Averaging, debug_quoted(average_text(error)))
}

fn persist(message: &IngestionMessage, state: UploadState) -> (next: (UploadState, UploadAction))
    ensures
        (next.0@, next.1@) == persist_new(*message, state@),
{
    let action = UploadAction::InsertChunk {
        point_id: state.point_id,
        file_id: message.chunk.file_id,
        dataset_id: message.dataset_id,
        upsert_by_tracking_id: message.upsert_by_tracking_id,
    };
    let mut after = state;
    after.phase = Phase::InsertingChunk;
    (after, action)
}

fn resolve(message: &IngestionMessage, state: UploadState, vector: Vec<u32>) -> (next: (
    UploadState,
    UploadAction,
))
    ensures
        (next.0@, next.1@) == resolved(*message, state@, vector@),
{
    let mut after = state;
    if message.dataset_config.is_dedup_enabled() {
        let probe = copy_vector(&vector);
        after.vector = Some(vector);
        after.phase = Phase::Probing;
        (
            after,
            UploadAction::Probe { vector: probe, dataset_id: message.chunk_metadata.dataset_id },
        )
    } else {
        after.vector = Some(vector);
        persist(message, after)
    }
}

fn begin(message: &IngestionMessage, state: UploadState) -> (next: (UploadState, UploadAction))
    ensures
        (next.0@, next.1@) == start(*message, state@),
{
    match &message.chunk.chunk_vector {
        Some(v) => resolve(message, state, copy_vector(v)),
        None => {
            if message.chunk.is_split_requested() {
                if state.sub_texts.len() == 0 {
                    fail_averaging(message, state, AverageError::NoVectors)
                } else {
                    let text = state.sub_texts[0].clone();
                    let mut after = state;
                    after.phase = Phase::EmbeddingParts;
                    (after, UploadAction::Embed { text })
                }
            } else {
                let text = message.chunk_metadata.content.clone();
                let mut after = state;
                after.phase = Phase::EmbeddingContent;
                (after, UploadAction::Embed { text })
            }
        },
    }
}

fn embed_part(message: &IngestionMessage, state: UploadState, vector: Vec<u32>) -> (next: (
    UploadState,
    UploadAction,
))
    ensures
        (next.0@, next.1@) == part_embedded(*message, state@, vector@),
{
    let mut after = state;
    after.parts.push(vector);
    assert(contents(after.parts@) =~= contents(state.parts@).push(vector@));
    if after.parts.len() < after.sub_texts.len() {
        let text = after.sub_texts[after.parts.len()].clone();
        (after, UploadAction::Embed { text })
    } else {
        match averaging_dimension(&after.parts) {
            Ok(_) => {
                let mut vectors: Vec<Vec<u32>> = Vec::new();
                std::mem::swap(&mut vectors, &mut after.parts);
                after.phase = Phase::Averaging;
                assert(contents(after.parts@) =~= Seq::<Seq<u32>>::empty());
                (after, UploadAction::Average { vectors })
            },
            Err(e) => fail_averaging(message, after, e),
        }
    }
}

fn probe_answered(message: &IngestionMessage, state: UploadState, found: TopMatch) -> (next: (
    UploadState,
    UploadAction,
))
    ensures
        (next.0@, next.1@) == probed(*message, state@, found),
{
    if is_at_least(found.score, message.dataset_config.duplicate_distance_threshold) {
        let mut after = state;
        after.phase = Phase::FetchingCollided;
        after.collision = Some(found.point_id);
        after.point_id = found.point_id;
        (after, UploadAction::FetchPointMetadata { point_id: found.point_id })
    } else {
        persist(message, state)
    }
}

fn collision_of(state: &UploadState) -> (point: u128)
    ensures
        point == collided_point(state@),
{
    resolve_id(state.collision, state.point_id)
}

fn chunk_inserted(message: &IngestionMessage, state: UploadState, row: StoredChunk) -> (next: (
    UploadState,
    UploadAction,
))
    ensures
        (next.0@, next.1@) == inserted(*message, state@, row),
{
    let point_id = resolve_id(row.qdrant_point_id, state.point_id);
    let mut after = state;
    let vector = match after.vector.take() {
        Some(v) => v,
        None => Vec::new(),
    };
    after.phase = Phase::UpsertingPoint;
    after.point_id = point_id;
    after.chunk_id = row.id;
    (
        after,
        UploadAction::UpsertPoint {
            point_id,
            vector,
            dataset_id: message.chunk_metadata.dataset_id,
        },
    )
}

fn bookmarks_from(message: &IngestionMessage, state: UploadState, i: usize) -> (next: (
    UploadState,
    UploadAction,
))
    ensures
        (next.0@, next.1@) == bookmark_from(*message, state@, i as int),
{
    let mut after = state;
    match &message.chunk.group_ids {
        Some(groups) => {
            if i < groups.len() {
                after.phase = Phase::CreatingBookmark { next: i };
                let chunk_id = after.chunk_id;
                return (after, UploadAction::CreateBookmark { group_id: groups[i], chunk_id });
            }
        },
        None => {},
    }
    after.phase = if after.collision.is_some() {
        Phase::Collided
    } else {
        Phase::Committed
    };
    (after, UploadAction::Conclude { event: uploaded(message) })
}

fn settle_bookmark(message: &IngestionMessage, state: UploadState, i: usize, ok: bool) -> (next: (
    UploadState,
    UploadAction,
))
    ensures
        (next.0@, next.1@) == bookmark_settled(*message, state@, i as int, ok),
{
    match &message.chunk.group_ids {
        Some(groups) => {
            if i < groups.len() {
                let mut after = state;
                if !ok {
                    after.failed_bookmarks.push(groups[i]);
                }
                return bookmarks_from(message, after, i + 1);
            }
        },
        None => {},
    }
    bookmarks_from(message, state, i)
}

fn bookmark_recorded(message: &IngestionMessage, state: UploadState, i: usize) -> (next: (
    UploadState,
    UploadAction,
))
    ensures
        (next.0@, next.1@) == bookmark_created(*message, state@, i as int),
{
    match &message.chunk.group_ids {
        Some(groups) => {
            if i < groups.len() {
                let mut after = state;
                after.phase = Phase::AddingBookmark { next: i };
                let point_id = after.point_id;
                return (after, UploadAction::AddBookmark { point_id, group_id: groups[i] });
            }
        },
        None => {},
    }
    bookmarks_from(message, state, i)
}

/// The state of an upload before anything was asked, with `fresh` as the
/// point to use when the message names none.
pub fn start_upload(message: &IngestionMessage, fresh: u128, sub_text_limit: usize) -> (state:
    UploadState)
    ensures
        state@ == initial_state(*message, fresh, sub_text_limit as nat),
{
    let sub_texts = if message.chunk.chunk_vector.is_none() && message.chunk.is_split_requested() {
        coarse_split(message.chunk_metadata.content.as_str(), sub_text_limit)
    } else {
        Vec::new()
    };
    let state = UploadState {
        phase: Phase::Received,
        sub_texts,
        parts: Vec::new(),
        vector: None,
        point_id: resolve_id(message.chunk_metadata.qdrant_point_id, fresh),
        chunk_id: message.chunk_metadata.id,
        collision: None,
        failed_bookmarks: Vec::new(),
        error: None,
    };
    proof {
        assert(state@.sub_texts =~= initial_state(*message, fresh, sub_text_limit as nat).sub_texts);
        assert(state@.parts =~= Seq::<Seq<u32>>::empty());
    }
    state
}

/// The state of an upload before anything was asked. When the message
/// names no point, a random identifier is drawn for it.
pub fn begin_upload(message: &IngestionMessage, sub_text_limit: usize) -> (state: UploadState)
    ensures
        exists|fresh: u128|
            is_random_layout(fresh) && state@ == #[trigger] initial_state(
                *message,
                fresh,
                sub_text_limit as nat,
            ),
{
    let fresh = random_id();
    start_upload(message, fresh, sub_text_limit)
}

/// Decides the next state and the next action from the state and the answer
/// to the action asked last, as [`step`] says.
pub fn upload_step(message: &IngestionMessage, state: UploadState, event: UploadEvent) -> (next: (
    UploadState,
    UploadAction,
))
    ensures
        (next.0@, next.1@) == step(*message, state@, event),
{
    match state.phase {
        Phase::Received => match event {
            UploadEvent::Start => begin(message, state),
            _ => reject(message, state),
        },
        Phase::EmbeddingContent => match event {
            UploadEvent::Embedded(Ok(v)) => resolve(message, state, v),
            UploadEvent::Embedded(Err(d)) => fail_with(message, state, UploadFailure::Embedding, d),
            _ => reject(message, state),
        },
        Phase::EmbeddingParts => match event {
            UploadEvent::Embedded(Ok(v)) => embed_part(message, state, v),
            UploadEvent::Embedded(Err(d)) => fail_with(message, state, UploadFailure::Embedding, d),
            _ => reject(message, state),
        },
        Phase::Averaging => match event {
            UploadEvent::Averaged(v) => resolve(message, state, v),
            _ => reject(message, state),
        },
        Phase::Probing => match event {
            UploadEvent::Probed(Ok(found)) => probe_answered(message, state, found),
            UploadEvent::Probed(Err(d)) => fail_with(message, state, UploadFailure::TopMatch, d),
            _ => reject(message, state),
        },
        Phase::FetchingCollided => match event {
            UploadEvent::Fetched(Ok(rows)) => {
                if rows == 0 {
                    fail_with(
                        message,
                        state,
                        UploadFailure::MetadataLookup,
                        String::from_str("no chunk references the point"),
                    )
                } else {
                    let point_id = collision_of(&state);
                    let mut after = state;
                    after.phase = Phase::UpdatingPoint;
                    (
                        after,
                        UploadAction::UpdatePoint {
                            point_id,
                            dataset_id: message.chunk_metadata.dataset_id,
                        },
                    )
                }
            },
            UploadEvent::Fetched(Err(d)) => fail_with(
                message,
                state,
                UploadFailure::MetadataLookup,
                d,
            ),
            _ => reject(message, state),
        },
        Phase::UpdatingPoint => match event {
            UploadEvent::Done(Ok(_)) => {
                let collision = collision_of(&state);
                let mut after = state;
                after.phase = Phase::InsertingDuplicate;
                (after, UploadAction::InsertDuplicate { collision, file_id: message.chunk.file_id })
            },
            UploadEvent::Done(Err(d)) => fail_with(message, state, UploadFailure::UpdatePoint, d),
            _ => reject(message, state),
        },
        Phase::InsertingDuplicate => match event {
            UploadEvent::Done(Ok(_)) => bookmarks_from(message, state, 0),
            UploadEvent::Done(Err(d)) => fail_with(
                message,
                state,
                UploadFailure::InsertDuplicate,
                d,
            ),
            _ => reject(message, state),
        },
        Phase::InsertingChunk => match event {
            UploadEvent::Inserted(Ok(row)) => chunk_inserted(message, state, row),
            UploadEvent::Inserted(Err(d)) => fail_with(
                message,
                state,
                UploadFailure::InsertChunk,
                d,
            ),
            _ => reject(message, state),
        },
        Phase::UpsertingPoint => match event {
            UploadEvent::Done(Ok(_)) => bookmarks_from(message, state, 0),
            UploadEvent::Done(Err(d)) => fail_with(message, state, UploadFailure::CreatePoint, d),
            _ => reject(message, state),
        },
        Phase::CreatingBookmark { next } => match event {
            UploadEvent::Done(Ok(_)) => bookmark_recorded(message, state, next),
            UploadEvent::Done(Err(_)) => settle_bookmark(message, state, next, false),
            _ => reject(message, state),
        },
        Phase::AddingBookmark { next } => match event {
            UploadEvent::Done(Ok(_)) => settle_bookmark(message, state, next, true),
            UploadEvent::Done(Err(_)) => settle_bookmark(message, state, next, false),
            _ => reject(message, state),
        },
        Phase::Committed | Phase::Collided | Phase::Failed => (state, UploadAction::Idle),
    }
}


impl UploadState {
    /// The coarse stage the upload is in.
    pub fn stage(&self) -> (stage: Stage)
        ensures
            stage == stage_of(self@.phase),
    {
        match self.phase {
            Phase::Received | Phase::EmbeddingContent | Phase::EmbeddingParts | Phase::Averaging => {
                Stage::Received
            },
            Phase::Probing => Stage::Embedded,
            Phase::FetchingCollided
            | Phase::UpdatingPoint
            | Phase::InsertingDuplicate
            | Phase::InsertingChunk
            | Phase::UpsertingPoint
            | Phase::CreatingBookmark { .. }
            | Phase::AddingBookmark { .. } => Stage::Probed,
            Phase::Committed => Stage::Committed,
            Phase::Collided => Stage::Collided,
            Phase::Failed => Stage::Failed,
        }
    }

    /// Whether the upload is over.
    pub fn is_finished(&self) -> (over: bool)
        ensures
            over == is_final(self@.phase),
    {
        match self.phase {
            Phase::Committed | Phase::Collided | Phase::Failed => true,
            _ => false,
        }
    }

    /// How the upload ended: nothing while it runs, success once the chunk
    /// is stored, and after a failure the error as the service reports it.
    pub fn outcome(&self) -> (outcome: Option<Result<(), ServiceError>>)
        ensures
            !is_final(self@.phase) ==> outcome is None,
            self@.phase == Phase::Committed || self@.phase == Phase::Collided ==> outcome == Some(
                Ok::<(), ServiceError>(()),
            ),
            self@.phase == Phase::Failed ==> (outcome matches Some(Err(e)) && e
                matches ServiceError::InternalServerError(m) && m@ == match self@.error {
                Some(error) => error.message(),
                None => failure_prefix(UploadFailure::UnexpectedAnswer),
            }),
    {
        match self.phase {
            Phase::Committed | Phase::Collided => Some(Ok(())),
            Phase::Failed => match &self.error {
                Some(error) => Some(Err(error.to_service_error())),
                None => Some(
                    Err(
                        ServiceError::InternalServerError(
                            String::from_str(prefix_of(UploadFailure::UnexpectedAnswer)),
                        ),
                    ),
                ),
            },
            _ => None,
        }
    }
}

} // verus!
