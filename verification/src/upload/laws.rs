//! What holds of every run of the single-item upload.

use vstd::prelude::*;
use crate::chunker::{common_dimension, pieces};
use crate::model::IngestionMessage;
use crate::vectors::contents;
use crate::upload::rules::{
    failed_event, initial_state, is_final, rank, stage_of, step, uploaded_event,
};
use crate::upload::types::{Phase, UploadActionView, UploadEvent, UploadStateView};

verus! {

/// Whether a state is one that a run can be in: what each phase relies on
/// is there.
pub open spec fn coherent(msg: IngestionMessage, s: UploadStateView) -> bool {
    match s.phase {
        Phase::Received => s.collision is None && s.vector is None && s.parts.len() == 0,
        Phase::EmbeddingContent | Phase::Averaging => s.collision is None && s.vector is None,
        Phase::EmbeddingParts => {
            s.collision is None && s.vector is None && s.parts.len() < s.sub_texts.len()
        },
        Phase::Probing | Phase::InsertingChunk => s.collision is None && s.vector is Some,
        Phase::UpsertingPoint | Phase::Committed => s.collision is None,
        Phase::FetchingCollided
        | Phase::UpdatingPoint
        | Phase::InsertingDuplicate
        | Phase::Collided => s.collision is Some,
        Phase::CreatingBookmark { next } | Phase::AddingBookmark { next } => next
            < msg.chunk.groups().len(),
        Phase::Failed => s.error is Some,
    }
}

/// The state before the first step is coherent.
pub proof fn lemma_initial_state_is_coherent(msg: IngestionMessage, fresh: u128, limit: nat)
    ensures
        coherent(msg, initial_state(msg, fresh, limit)),
{
}

/// A step leads from a coherent state to a coherent state.
pub proof fn lemma_step_keeps_coherence(msg: IngestionMessage, s: UploadStateView, event: UploadEvent)
    requires
        coherent(msg, s),
    ensures
        coherent(msg, step(msg, s, event).0),
{
}

/// The stages of a message's life are passed in order: a step never leads
/// back to an earlier stage, and in a final stage nothing happens any more.
pub proof fn lemma_stages_advance(msg: IngestionMessage, s: UploadStateView, event: UploadEvent)
    ensures
        rank(stage_of(step(msg, s, event).0.phase)) >= rank(stage_of(s.phase)),
        is_final(s.phase) ==> step(msg, s, event) == (s, UploadActionView::Idle),
{
}

/// A run ends with exactly one event: the step that enters a final stage,
/// and no other, hands out an event; it is the failure event when the stage
/// is `Failed` and the event of a stored chunk else.
pub proof fn lemma_final_stage_emits(msg: IngestionMessage, s: UploadStateView, event: UploadEvent)
    requires
        !is_final(s.phase),
    ensures
        ({
            let (after, action) = step(msg, s, event);
            &&& is_final(after.phase) <==> action is Conclude
            &&& after.phase == Phase::Failed ==> after.error is Some && action
                == (UploadActionView::Conclude { event: failed_event(msg, after.error->0) })
            &&& after.phase == Phase::Committed || after.phase == Phase::Collided ==> action
                == (UploadActionView::Conclude { event: uploaded_event(msg) })
            &&& !(action is Idle)
        }),
{
}

/// A collision never stores a vector: once a run has found the point that
/// the chunk duplicates, it asks neither for a new row of the chunk's own
/// nor for a new point.
pub proof fn lemma_collision_stores_no_vector(
    msg: IngestionMessage,
    s: UploadStateView,
    event: UploadEvent,
)
    requires
        coherent(msg, s),
        s.collision is Some,
    ensures
        ({
            let (after, action) = step(msg, s, event);
            &&& !(action is UpsertPoint)
            &&& !(action is InsertChunk)
            &&& after.collision == s.collision
        }),
{
}

/// Without the duplicate probe the nearest point is never asked for.
pub proof fn lemma_probe_only_when_enabled(
    msg: IngestionMessage,
    s: UploadStateView,
    event: UploadEvent,
)
    requires
        !msg.dataset_config.dedup_enabled(),
    ensures
        !(step(msg, s, event).1 is Probe),
{
}

/// A vector that comes with the message is stored as it is: the first step
/// asks for no embedding, and the vector it records is the message's.
pub proof fn lemma_given_vector_is_used(msg: IngestionMessage, fresh: u128, limit: nat)
    requires
        msg.chunk.chunk_vector is Some,
    ensures
        ({
            let (after, action) = step(msg, initial_state(msg, fresh, limit), UploadEvent::Start);
            &&& after.vector == Some(msg.chunk.chunk_vector->0@)
            &&& !(action is Embed)
        }),
{
}


/// The state of a run, and the action it waits for, after it was started
/// and the embedding service answered `k` times, with the first `k` of
/// `embeddings`.
pub open spec fn after_embeddings(
    msg: IngestionMessage,
    fresh: u128,
    limit: nat,
    embeddings: Seq<Vec<u32>>,
    k: nat,
) -> (UploadStateView, UploadActionView)
    decreases k,
{
    if k == 0 {
        step(msg, initial_state(msg, fresh, limit), UploadEvent::Start)
    } else {
        step(
            msg,
            after_embeddings(msg, fresh, limit, embeddings, (k - 1) as nat).0,
            UploadEvent::Embedded(Ok(embeddings[k - 1])),
        )
    }
}

/// Split-and-average embeds every sub-text once, in order, and nothing
/// else: for a message that asks for it and brings no vector, the run asks
/// for the embedding of the first sub-text, then, answer by answer, of the
/// next one, and never of the whole content. After the last answer it asks
/// for the mean of exactly the embeddings it was given, in their order.
pub proof fn lemma_split_embeds_each_sub_text_once(
    msg: IngestionMessage,
    fresh: u128,
    limit: nat,
    embeddings: Seq<Vec<u32>>,
    k: nat,
)
    requires
        msg.chunk.chunk_vector is None,
        msg.chunk.wants_split(),
        embeddings.len() == pieces(msg.chunk_metadata.content@, limit).len(),
        embeddings.len() > 0,
        common_dimension(contents(embeddings)) is Ok,
        k <= embeddings.len(),
    ensures
        ({
            let sub_texts = pieces(msg.chunk_metadata.content@, limit);
            let (state, action) = after_embeddings(msg, fresh, limit, embeddings, k);
            if k < embeddings.len() {
                &&& state.phase == Phase::EmbeddingParts
                &&& state.parts == contents(embeddings).take(k as int)
                &&& action == (UploadActionView::Embed { text: sub_texts[k as int] })
            } else {
                &&& state.phase == Phase::Averaging
                &&& action == (UploadActionView::Average { vectors: contents(embeddings) })
            }
        }),
    decreases k,
{
    let sub_texts = pieces(msg.chunk_metadata.content@, limit);
    if k == 0 {
        assert(contents(embeddings).take(0) =~= Seq::<Seq<u32>>::empty());
    } else {
        lemma_split_embeds_each_sub_text_once(msg, fresh, limit, embeddings, (k - 1) as nat);
        let before = after_embeddings(msg, fresh, limit, embeddings, (k - 1) as nat).0;
        assert(before.sub_texts == sub_texts) by {
            lemma_sub_texts_stay(msg, fresh, limit, embeddings, (k - 1) as nat);
        }
        let parts = before.parts.push(embeddings[k - 1]@);
        assert(parts =~= contents(embeddings).take(k as int));
        if k == embeddings.len() {
            assert(contents(embeddings).take(k as int) =~= contents(embeddings));
        }
    }
}

proof fn lemma_sub_texts_stay(
    msg: IngestionMessage,
    fresh: u128,
    limit: nat,
    embeddings: Seq<Vec<u32>>,
    k: nat,
)
    requires
        msg.chunk.chunk_vector is None,
        msg.chunk.wants_split(),
    ensures
        after_embeddings(msg, fresh, limit, embeddings, k).0.sub_texts == pieces(
            msg.chunk_metadata.content@,
            limit,
        ),
    decreases k,
{
    if k > 0 {
        lemma_sub_texts_stay(msg, fresh, limit, embeddings, (k - 1) as nat);
    }
}

/// The vector that comes back as the mean is the vector of the chunk: it is
/// the one that is probed with, and the one that is stored. No step changes
/// the vector of the chunk once it is known, and every point is stored with
/// it.
pub proof fn lemma_mean_is_the_stored_vector(
    msg: IngestionMessage,
    s: UploadStateView,
    mean: Vec<u32>,
    event: UploadEvent,
)
    requires
        s.phase == Phase::Averaging,
    ensures
        ({
            let (known, first) = step(msg, s, UploadEvent::Averaged(mean));
            let (after, action) = step(msg, known, event);
            &&& known.vector == Some(mean@)
            &&& first matches UploadActionView::Probe { vector, .. } ==> vector == mean@
            &&& first is Probe || first is InsertChunk
            &&& action matches UploadActionView::UpsertPoint { vector, .. } ==> vector == mean@
            &&& after.phase == Phase::InsertingChunk ==> after.vector == Some(mean@)
        }),
{
}

/// Whatever the state, a point is stored with the vector of the chunk that
/// the state holds.
pub proof fn lemma_point_carries_the_known_vector(
    msg: IngestionMessage,
    s: UploadStateView,
    event: UploadEvent,
)
    requires
        s.vector is Some,
    ensures
        step(msg, s, event).1 matches UploadActionView::UpsertPoint { vector, .. } ==> vector
            == s.vector->0,
{
}

} // verus!
