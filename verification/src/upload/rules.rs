//! The rules of the single-item upload: what follows from each state and
//! each answer.

use vstd::prelude::*;
use crate::chunker::{common_dimension, pieces, AverageError};
use crate::errors::internal_error_text;
use crate::events::{EventTypeView, EventView};
use crate::model::IngestionMessage;
use crate::score::at_least;
use crate::text::debug_form;
use crate::upload::types::{
    Phase, Stage, StoredChunk, TopMatch, UploadActionView, UploadErrorView, UploadEvent,
    UploadFailure, UploadStateView,
};

verus! {

/// How the message of a failure begins.
pub open spec fn failure_prefix(failure: UploadFailure) -> Seq<char> {
    match failure {
        UploadFailure::Embedding => "Failed to create embedding: "@,
        UploadFailure::Averaging => "Failed to average embeddings: "@,
        UploadFailure::TopMatch => "Failed to get top match: "@,
        UploadFailure::MetadataLookup => "Failed to get chunk metadata: "@,
        UploadFailure::UpdatePoint => "Failed to update qdrant point: "@,
        UploadFailure::InsertDuplicate => "Failed to insert duplicate chunk metadata: "@,
        UploadFailure::InsertChunk => "Failed to insert chunk metadata: "@,
        UploadFailure::CreatePoint => "Failed to create new qdrant point: "@,
        UploadFailure::UnexpectedAnswer => "Unexpected answer: "@,
    }
}

/// What an averaging failure says.
pub open spec fn average_message(error: AverageError) -> Seq<char> {
    match error {
        AverageError::NoVectors => "No embeddings to average"@,
        AverageError::ShapeMismatch => "Embeddings differ in length"@,
    }
}

/// What is said when the metadata store knows no row for a point that the
/// probe returned.
pub open spec fn no_rows_detail() -> Seq<char> {
    "no chunk references the point"@
}

/// What is said of an answer that was not waited for.
pub open spec fn unexpected_detail() -> Seq<char> {
    "the answer does not fit the pending action"@
}

impl UploadErrorView {
    /// The message of the failure: what failed, then what the collaborator
    /// said.
    pub open spec fn message(self) -> Seq<char> {
        failure_prefix(self.failure) + self.detail
    }

    /// The error text of the failure event.
    pub open spec fn event_text(self) -> Seq<char> {
        "Failed to upload chunk: "@ + internal_error_text(self.message())
    }
}

/// The event of a stored chunk.
pub open spec fn uploaded_event(msg: IngestionMessage) -> EventView {
    EventView {
        dataset_id: msg.chunk_metadata.dataset_id,
        event_type: EventTypeView::CardUploaded { chunk_id: msg.chunk_metadata.id },
    }
}

/// The event of a failed upload.
pub open spec fn failed_event(msg: IngestionMessage, error: UploadErrorView) -> EventView {
    EventView {
        dataset_id: msg.chunk_metadata.dataset_id,
        event_type: EventTypeView::CardUploadFailed {
            chunk_id: msg.chunk_metadata.id,
            error: error.event_text(),
        },
    }
}

/// The state before anything was asked. The point is the one the message
/// names, else `fresh`. The sub-texts are cut when the message asks for
/// split-and-average and brings no vector.
pub open spec fn initial_state(msg: IngestionMessage, fresh: u128, limit: nat) -> UploadStateView {
    UploadStateView {
        phase: Phase::Received,
        sub_texts: if msg.chunk.chunk_vector is None && msg.chunk.wants_split() {
            pieces(msg.chunk_metadata.content@, limit)
        } else {
            Seq::empty()
        },
        parts: Seq::empty(),
        vector: None,
        point_id: match msg.chunk_metadata.qdrant_point_id {
            Some(p) => p,
            None => fresh,
        },
        chunk_id: msg.chunk_metadata.id,
        collision: None,
        failed_bookmarks: Seq::empty(),
        error: None,
    }
}

/// The upload fails: the state records why, and the failure event is due.
pub open spec fn fail(
    msg: IngestionMessage,
    s: UploadStateView,
    failure: UploadFailure,
    detail: Seq<char>,
) -> (UploadStateView, UploadActionView) {
    let error = UploadErrorView { failure, detail };
    (
        UploadStateView { phase: Phase::Failed, error: Some(error), ..s },
        UploadActionView::Conclude { event: failed_event(msg, error) },
    )
}

/// An answer arrived that does not fit the pending action.
pub open spec fn unexpected(msg: IngestionMessage, s: UploadStateView) -> (
    UploadStateView,
    UploadActionView,
) {
    fail(msg, s, UploadFailure::UnexpectedAnswer, unexpected_detail())
}

/// The sub-text embeddings cannot be averaged.
pub open spec fn averaging_failed(msg: IngestionMessage, s: UploadStateView, error: AverageError) -> (
    UploadStateView,
    UploadActionView,
) {
    fail(msg, s, UploadFailure::Averaging, debug_form(average_message(error)))
}

/// The chunk is stored as a new row, then as a new point.
pub open spec fn persist_new(msg: IngestionMessage, s: UploadStateView) -> (
    UploadStateView,
    UploadActionView,
) {
    (
        UploadStateView { phase: Phase::InsertingChunk, ..s },
        UploadActionView::InsertChunk {
            point_id: s.point_id,
            file_id: msg.chunk.file_id,
            dataset_id: msg.dataset_id,
            upsert_by_tracking_id: msg.upsert_by_tracking_id,
        },
    )
}

/// The vector of the chunk is known: probe for a duplicate where the
/// dataset asks for it, else store the chunk.
pub open spec fn resolved(msg: IngestionMessage, s: UploadStateView, vector: Seq<u32>) -> (
    UploadStateView,
    UploadActionView,
) {
    let s1 = UploadStateView { vector: Some(vector), ..s };
    if msg.dataset_config.dedup_enabled() {
        (
            UploadStateView { phase: Phase::Probing, ..s1 },
            UploadActionView::Probe { vector, dataset_id: msg.chunk_metadata.dataset_id },
        )
    } else {
        persist_new(msg, s1)
    }
}

/// The pipeline starts: a vector that came with the message is taken as it
/// is; else the sub-texts, or the whole content, are sent for embedding.
pub open spec fn start(msg: IngestionMessage, s: UploadStateView) -> (
    UploadStateView,
    UploadActionView,
) {
    match msg.chunk.chunk_vector {
        Some(v) => resolved(msg, s, v@),
        None => if msg.chunk.wants_split() {
            if s.sub_texts.len() == 0 {
                averaging_failed(msg, s, AverageError::NoVectors)
            } else {
                (
                    UploadStateView { phase: Phase::EmbeddingParts, ..s },
                    UploadActionView::Embed { text: s.sub_texts[0] },
                )
            }
        } else {
            (
                UploadStateView { phase: Phase::EmbeddingContent, ..s },
                UploadActionView::Embed { text: msg.chunk_metadata.content@ },
            )
        },
    }
}

/// The embedding of a sub-text arrived: ask for the next one, or, after the
/// last, for the mean, which needs vectors of one length.
pub open spec fn part_embedded(msg: IngestionMessage, s: UploadStateView, vector: Seq<u32>) -> (
    UploadStateView,
    UploadActionView,
) {
    let parts = s.parts.push(vector);
    if parts.len() < s.sub_texts.len() {
        (
            UploadStateView { parts, ..s },
            UploadActionView::Embed { text: s.sub_texts[parts.len() as int] },
        )
    } else {
        match common_dimension(parts) {
            Ok(_) => (
                UploadStateView { phase: Phase::Averaging, parts: Seq::empty(), ..s },
                UploadActionView::Average { vectors: parts },
            ),
            Err(e) => averaging_failed(msg, UploadStateView { parts, ..s }, e),
        }
    }
}

/// The probe answered: a score at or above the dataset's threshold is a
/// collision with the point it names, which from then on is the point of
/// the chunk.
pub open spec fn probed(msg: IngestionMessage, s: UploadStateView, found: TopMatch) -> (
    UploadStateView,
    UploadActionView,
) {
    if at_least(found.score, msg.dataset_config.duplicate_distance_threshold) {
        (
            UploadStateView {
                phase: Phase::FetchingCollided,
                collision: Some(found.point_id),
                point_id: found.point_id,
                ..s
            },
            UploadActionView::FetchPointMetadata { point_id: found.point_id },
        )
    } else {
        persist_new(msg, s)
    }
}

/// The point that the chunk collided with; the chunk's own point while
/// there is none.
pub open spec fn collided_point(s: UploadStateView) -> u128 {
    match s.collision {
        Some(p) => p,
        None => s.point_id,
    }
}

/// The metadata store inserted the row: the point is the one the stored row
/// names, else the one chosen before; it is stored next.
pub open spec fn inserted(msg: IngestionMessage, s: UploadStateView, row: StoredChunk) -> (
    UploadStateView,
    UploadActionView,
) {
    let point_id = match row.qdrant_point_id {
        Some(p) => p,
        None => s.point_id,
    };
    (
        UploadStateView {
            phase: Phase::UpsertingPoint,
            point_id,
            chunk_id: row.id,
            vector: None,
            ..s
        },
        UploadActionView::UpsertPoint {
            point_id,
            vector: match s.vector {
                Some(v) => v,
                None => Seq::empty(),
            },
            dataset_id: msg.chunk_metadata.dataset_id,
        },
    )
}

/// The bookmarks from number `i` on: the next one is recorded in the
/// metadata store; after the last the upload concludes.
pub open spec fn bookmark_from(msg: IngestionMessage, s: UploadStateView, i: int) -> (
    UploadStateView,
    UploadActionView,
) {
    let groups = msg.chunk.groups();
    if 0 <= i < groups.len() {
        (
            UploadStateView { phase: Phase::CreatingBookmark { next: i as usize }, ..s },
            UploadActionView::CreateBookmark { group_id: groups[i], chunk_id: s.chunk_id },
        )
    } else {
        (
            UploadStateView {
                phase: if s.collision is Some {
                    Phase::Collided
                } else {
                    Phase::Committed
                },
                ..s
            },
            UploadActionView::Conclude { event: uploaded_event(msg) },
        )
    }
}

/// The bookmark `i` is settled, recorded or not: a failure is noted and
/// the next bookmark follows.
pub open spec fn bookmark_settled(msg: IngestionMessage, s: UploadStateView, i: int, ok: bool) -> (
    UploadStateView,
    UploadActionView,
) {
    let groups = msg.chunk.groups();
    if 0 <= i < groups.len() {
        let s1 = if ok {
            s
        } else {
            UploadStateView { failed_bookmarks: s.failed_bookmarks.push(groups[i]), ..s }
        };
        bookmark_from(msg, s1, i + 1)
    } else {
        bookmark_from(msg, s, i)
    }
}

/// The metadata store recorded the bookmark `i`: the vector index follows.
pub open spec fn bookmark_created(msg: IngestionMessage, s: UploadStateView, i: int) -> (
    UploadStateView,
    UploadActionView,
) {
    let groups = msg.chunk.groups();
    if 0 <= i < groups.len() {
        (
            UploadStateView { phase: Phase::AddingBookmark { next: i as usize }, ..s },
            UploadActionView::AddBookmark { point_id: s.point_id, group_id: groups[i] },
        )
    } else {
        bookmark_from(msg, s, i)
    }
}

/// The decision of the pipeline: the next state and the next action, from
/// the state and the answer to the action asked last.
pub open spec fn step(msg: IngestionMessage, s: UploadStateView, event: UploadEvent) -> (
    UploadStateView,
    UploadActionView,
) {
    match s.phase {
        Phase::Received => match event {
            UploadEvent::Start => start(msg, s),
            _ => unexpected(msg, s),
        },
        Phase::EmbeddingContent => match event {
            UploadEvent::Embedded(Ok(v)) => resolved(msg, s, v@),
            UploadEvent::Embedded(Err(d)) => fail(msg, s, UploadFailure::Embedding, d@),
            _ => unexpected(msg, s),
        },
        Phase::EmbeddingParts => match event {
            UploadEvent::Embedded(Ok(v)) => part_embedded(msg, s, v@),
            UploadEvent::Embedded(Err(d)) => fail(msg, s, UploadFailure::Embedding, d@),
            _ => unexpected(msg, s),
        },
        Phase::Averaging => match event {
            UploadEvent::Averaged(v) => resolved(msg, s, v@),
            _ => unexpected(msg, s),
        },
        Phase::Probing => match event {
            UploadEvent::Probed(Ok(found)) => probed(msg, s, found),
            UploadEvent::Probed(Err(d)) => fail(msg, s, UploadFailure::TopMatch, d@),
            _ => unexpected(msg, s),
        },
        Phase::FetchingCollided => match event {
            UploadEvent::Fetched(Ok(rows)) => if rows == 0 {
                fail(msg, s, UploadFailure::MetadataLookup, no_rows_detail())
            } else {
                (
                    UploadStateView { phase: Phase::UpdatingPoint, ..s },
                    UploadActionView::UpdatePoint {
                        point_id: collided_point(s),
                        dataset_id: msg.chunk_metadata.dataset_id,
                    },
                )
            },
            UploadEvent::Fetched(Err(d)) => fail(msg, s, UploadFailure::MetadataLookup, d@),
            _ => unexpected(msg, s),
        },
        Phase::UpdatingPoint => match event {
            UploadEvent::Done(Ok(_)) => (
                UploadStateView { phase: Phase::InsertingDuplicate, ..s },
                UploadActionView::InsertDuplicate {
                    collision: collided_point(s),
                    file_id: msg.chunk.file_id,
                },
            ),
            UploadEvent::Done(Err(d)) => fail(msg, s, UploadFailure::UpdatePoint, d@),
            _ => unexpected(msg, s),
        },
        Phase::InsertingDuplicate => match event {
            UploadEvent::Done(Ok(_)) => bookmark_from(msg, s, 0),
            UploadEvent::Done(Err(d)) => fail(msg, s, UploadFailure::InsertDuplicate, d@),
            _ => unexpected(msg, s),
        },
        Phase::InsertingChunk => match event {
            UploadEvent::Inserted(Ok(row)) => inserted(msg, s, row),
            UploadEvent::Inserted(Err(d)) => fail(msg, s, UploadFailure::InsertChunk, d@),
            _ => unexpected(msg, s),
        },
        Phase::UpsertingPoint => match event {
            UploadEvent::Done(Ok(_)) => bookmark_from(msg, s, 0),
            UploadEvent::Done(Err(d)) => fail(msg, s, UploadFailure::CreatePoint, d@),
            _ => unexpected(msg, s),
        },
        Phase::CreatingBookmark { next } => match event {
            UploadEvent::Done(Ok(_)) => bookmark_created(msg, s, next as int),
            UploadEvent::Done(Err(_)) => bookmark_settled(msg, s, next as int, false),
            _ => unexpected(msg, s),
        },
        Phase::AddingBookmark { next } => match event {
            UploadEvent::Done(Ok(_)) => bookmark_settled(msg, s, next as int, true),
            UploadEvent::Done(Err(_)) => bookmark_settled(msg, s, next as int, false),
            _ => unexpected(msg, s),
        },
        Phase::Committed | Phase::Collided | Phase::Failed => (s, UploadActionView::Idle),
    }
}

/// The coarse stage of a phase.
pub open spec fn stage_of(phase: Phase) -> Stage {
    match phase {
        Phase::Received | Phase::EmbeddingContent | Phase::EmbeddingParts | Phase::Averaging => {
            Stage::Received
        },
        Phase::Probing => Stage::Embedded,
        Phase::FetchingCollided
        | Phase::UpdatingPoint
        | Phase::InsertingDuplicate
        | Phase::InsertingChunk
        | Phase::UpsertingPoint
        | Phase::CreatingBookmark { .. }
        | Phase::AddingBookmark { .. } => Stage::Probed,
        Phase::Committed => Stage::Committed,
        Phase::Collided => Stage::Collided,
        Phase::Failed => Stage::Failed,
    }
}

/// The position of a stage in the life of a message; the three final stages
/// share the last position.
pub open spec fn rank(stage: Stage) -> nat {
    match stage {
        Stage::Received => 0,
        Stage::Embedded => 1,
        Stage::Probed => 2,
        Stage::Committed | Stage::Collided | Stage::Failed => 3,
    }
}

/// Whether the upload is over.
pub open spec fn is_final(phase: Phase) -> bool {
    phase == Phase::Committed || phase == Phase::Collided || phase == Phase::Failed
}

} // verus!
