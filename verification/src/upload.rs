//! The single-item upload pipeline as a state machine.
//!
//! Every remote call of the pipeline (embedding service, duplicate probe,
//! metadata store, vector index) is an [`UploadAction`] that the caller
//! performs; its answer comes back as an [`UploadEvent`]. [`upload_step`]
//! decides, from the state and the answer, the next state and the next
//! action. [`step`] is the specification of that decision.

pub mod types;
pub mod rules;
pub mod machine;
pub mod laws;

pub use self::laws::{
    after_embeddings, coherent, lemma_collision_stores_no_vector, lemma_final_stage_emits,
    lemma_given_vector_is_used, lemma_initial_state_is_coherent,
    lemma_mean_is_the_stored_vector, lemma_point_carries_the_known_vector,
    lemma_probe_only_when_enabled, lemma_split_embeds_each_sub_text_once, lemma_stages_advance,
    lemma_step_keeps_coherence,
};
pub use self::machine::{begin_upload, start_upload, upload_step};
pub use self::rules::{collided_point, initial_state, is_final, rank, stage_of, step};
pub use self::types::{
    Phase, Stage, StoredChunk, TopMatch, UploadAction, UploadActionView, UploadError,
    UploadErrorView, UploadEvent, UploadFailure, UploadState, UploadStateView,
};
