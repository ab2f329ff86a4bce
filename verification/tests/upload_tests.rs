use trieve_server::errors::ServiceError;
use trieve_server::events::{Event, EventType};
use trieve_server::model::{ChunkMetadata, ChunkOptions, DatasetConfig, IngestionMessage};
use trieve_server::upload::{
    begin_upload, start_upload, upload_step, Phase, Stage, StoredChunk, TopMatch, UploadAction,
    UploadEvent, UploadFailure, UploadState,
};

const LIMIT: usize = trieve_server::chunker::SUB_TEXT_CHARS;

fn message(id: u128) -> IngestionMessage {
    IngestionMessage {
        chunk_metadata: ChunkMetadata {
            id,
            dataset_id: 70,
            content: "some content".to_string(),
            tracking_id: None,
            qdrant_point_id: None,
            group_ids: None,
            link: None,
            tag_set: None,
            chunk_html: None,
            metadata: None,
            time_stamp: None,
            created_at: 0,
            updated_at: 0,
        },
        chunk: ChunkOptions {
            chunk_vector: None,
            split_avg: None,
            group_ids: None,
            upsert_by_tracking_id: None,
            file_id: Some(5),
        },
        dataset_id: 71,
        dataset_config: DatasetConfig {
            collisions_enabled: false,
            duplicate_distance_threshold: 1.0f32.to_bits(),
        },
        upsert_by_tracking_id: false,
    }
}

fn bits(values: &[f32]) -> Vec<u32> {
    values.iter().map(|v| v.to_bits()).collect()
}

fn floats(values: &[u32]) -> Vec<f32> {
    values.iter().map(|v| f32::from_bits(*v)).collect()
}

/// A stand-in for the collaborators: it records what it is asked and
/// answers from what it holds.
struct World {
    rows: Vec<(u128, Option<u128>, bool)>,
    points: Vec<(u128, Vec<u32>)>,
    embedded: Vec<String>,
    probes: usize,
    nearest: Option<TopMatch>,
    updated: Vec<u128>,
    bookmarks: Vec<(u128, u128)>,
    payload_groups: Vec<(u128, u128)>,
    events: Vec<Event>,
    asked: Vec<&'static str>,
    failing: Vec<&'static str>,
    existing_row: Option<StoredChunk>,
}

impl World {
    fn new() -> World {
        World {
            rows: vec![],
            points: vec![],
            embedded: vec![],
            probes: 0,
            nearest: None,
            updated: vec![],
            bookmarks: vec![],
            payload_groups: vec![],
            events: vec![],
            asked: vec![],
            failing: vec![],
            existing_row: None,
        }
    }

    fn fails(&self, what: &'static str) -> bool {
        self.failing.contains(&what)
    }

    fn done(&self, what: &'static str) -> UploadEvent {
        if self.fails(what) {
            UploadEvent::Done(Err(format!("{} is down", what)))
        } else {
            UploadEvent::Done(Ok(()))
        }
    }

    fn embedding_of(text: &str) -> Vec<u32> {
        let n = text.chars().count() as f32;
        bits(&[n, 1.0, -n])
    }

    fn answer(&mut self, message: &IngestionMessage, action: UploadAction) -> Option<UploadEvent> {
        match action {
            UploadAction::Embed { text } => {
                self.asked.push("embed");
                let answer = if self.fails("embed") {
                    Err("embed is down".to_string())
                } else {
                    Ok(World::embedding_of(&text))
                };
                self.embedded.push(text);
                Some(UploadEvent::Embedded(answer))
            }
            UploadAction::Average { vectors } => {
                self.asked.push("average");
                let dimension = vectors[0].len();
                let mut mean = vec![0.0f32; dimension];
                for vector in &vectors {
                    for (slot, value) in mean.iter_mut().zip(floats(vector)) {
                        *slot += value;
                    }
                }
                for slot in mean.iter_mut() {
                    *slot /= vectors.len() as f32;
                }
                Some(UploadEvent::Averaged(bits(&mean)))
            }
            UploadAction::Probe { .. } => {
                self.asked.push("probe");
                self.probes += 1;
                if self.fails("probe") {
                    return Some(UploadEvent::Probed(Err("probe is down".to_string())));
                }
                let found = match &self.nearest {
                    Some(m) => TopMatch { point_id: m.point_id, score: m.score },
                    None => TopMatch { point_id: 0, score: 0.0f32.to_bits() },
                };
                Some(UploadEvent::Probed(Ok(found)))
            }
            UploadAction::FetchPointMetadata { point_id } => {
                self.asked.push("fetch");
                if self.fails("fetch") {
                    return Some(UploadEvent::Fetched(Err("fetch is down".to_string())));
                }
                let rows = self.rows.iter().filter(|r| r.1 == Some(point_id)).count();
                Some(UploadEvent::Fetched(Ok(rows)))
            }
            UploadAction::UpdatePoint { point_id, .. } => {
                self.asked.push("update_point");
                if !self.fails("update_point") {
                    self.updated.push(point_id);
                }
                Some(self.done("update_point"))
            }
            UploadAction::InsertDuplicate { collision, .. } => {
                self.asked.push("insert_duplicate");
                if !self.fails("insert_duplicate") {
                    self.rows.push((message.chunk_metadata.id, Some(collision), true));
                }
                Some(self.done("insert_duplicate"))
            }
            UploadAction::InsertChunk { point_id, upsert_by_tracking_id, .. } => {
                self.asked.push("insert_chunk");
                if self.fails("insert_chunk") {
                    return Some(UploadEvent::Inserted(Err("insert_chunk is down".to_string())));
                }
                if upsert_by_tracking_id {
                    if let Some(row) = &self.existing_row {
                        return Some(UploadEvent::Inserted(Ok(StoredChunk {
                            id: row.id,
                            qdrant_point_id: row.qdrant_point_id,
                        })));
                    }
                }
                self.rows.push((message.chunk_metadata.id, Some(point_id), false));
                Some(UploadEvent::Inserted(Ok(StoredChunk {
                    id: message.chunk_metadata.id,
                    qdrant_point_id: Some(point_id),
                })))
            }
            UploadAction::UpsertPoint { point_id, vector, .. } => {
                self.asked.push("upsert_point");
                if !self.fails("upsert_point") {
                    self.points.push((point_id, vector));
                }
                Some(self.done("upsert_point"))
            }
            UploadAction::CreateBookmark { group_id, chunk_id } => {
                self.asked.push("create_bookmark");
                let failed = self.fails("create_bookmark") || (self.fails("bookmark_8") && group_id == 8);
                if failed {
                    return Some(UploadEvent::Done(Err("bookmark is down".to_string())));
                }
                self.bookmarks.push((group_id, chunk_id));
                Some(UploadEvent::Done(Ok(())))
            }
            UploadAction::AddBookmark { point_id, group_id } => {
                self.asked.push("add_bookmark");
                if !self.fails("add_bookmark") {
                    self.payload_groups.push((point_id, group_id));
                }
                Some(self.done("add_bookmark"))
            }
            UploadAction::Conclude { event } => {
                self.events.push(event);
                None
            }
            UploadAction::Idle => None,
        }
    }
}

fn run(message: &IngestionMessage, world: &mut World) -> UploadState {
    let mut state = begin_upload(message, LIMIT);
    let mut event = UploadEvent::Start;
    loop {
        let (next, action) = upload_step(message, state, event);
        state = next;
        match world.answer(message, action) {
            Some(answer) => event = answer,
            None => return state,
        }
    }
}

fn is_version_four(id: u128) -> bool {
    let id = uuid::Uuid::from_u128(id);
    id.get_version_num() == 4 && id.get_variant() == uuid::Variant::RFC4122
}

#[test]
fn a_precomputed_vector_is_stored_without_embedding_or_probe() {
    let mut m = message(1);
    let vector: Vec<f32> = (0..384).map(|i| i as f32 / 10.0).collect();
    m.chunk.chunk_vector = Some(bits(&vector));
    let mut world = World::new();
    let state = run(&m, &mut world);

    assert_eq!(state.phase, Phase::Committed);
    assert_eq!(state.stage(), Stage::Committed);
    assert_eq!(world.asked, vec!["insert_chunk", "upsert_point"]);
    assert_eq!(world.probes, 0);
    assert!(world.embedded.is_empty());
    assert_eq!(world.rows.len(), 1);
    assert_eq!(world.points.len(), 1);
    let (point_id, stored) = &world.points[0];
    assert!(is_version_four(*point_id));
    assert_eq!(world.rows[0], (1, Some(*point_id), false));
    assert_eq!(floats(stored), vector);
    assert_eq!(world.events.len(), 1);
    assert_eq!(world.events[0].dataset_id, 70);
    assert!(matches!(world.events[0].event_type, EventType::CardUploaded { chunk_id: 1 }));
    assert!(matches!(state.outcome(), Some(Ok(()))));
}

#[test]
fn a_collision_references_the_existing_point_and_stores_no_vector() {
    let mut m = message(2);
    m.dataset_config.duplicate_distance_threshold = 0.95f32.to_bits();
    let mut world = World::new();
    world.rows.push((100, Some(900), false));
    world.points.push((900, bits(&[1.0, 2.0, 3.0])));
    world.nearest = Some(TopMatch { point_id: 900, score: 0.97f32.to_bits() });
    let state = run(&m, &mut world);

    assert_eq!(state.phase, Phase::Collided);
    assert_eq!(state.collision, Some(900));
    assert_eq!(state.point_id, 900);
    assert_eq!(
        world.asked,
        vec!["embed", "probe", "fetch", "update_point", "insert_duplicate"]
    );
    assert_eq!(world.points.len(), 1);
    assert_eq!(world.updated, vec![900]);
    assert_eq!(world.rows.len(), 2);
    assert_eq!(world.rows[1], (2, Some(900), true));
    assert!(matches!(world.events[0].event_type, EventType::CardUploaded { chunk_id: 2 }));
}

#[test]
fn a_score_below_the_threshold_is_no_collision() {
    let mut m = message(3);
    m.dataset_config.duplicate_distance_threshold = 0.95f32.to_bits();
    let mut world = World::new();
    world.points.push((900, bits(&[1.0, 2.0, 3.0])));
    world.nearest = Some(TopMatch { point_id: 900, score: 0.94f32.to_bits() });
    let state = run(&m, &mut world);

    assert_eq!(state.phase, Phase::Committed);
    assert_eq!(state.collision, None);
    assert_eq!(world.asked, vec!["embed", "probe", "insert_chunk", "upsert_point"]);
    assert_eq!(world.points.len(), 2);
}

#[test]
fn a_score_equal_to_the_threshold_is_a_collision() {
    let mut m = message(3);
    m.dataset_config.duplicate_distance_threshold = 0.95f32.to_bits();
    let mut world = World::new();
    world.rows.push((100, Some(900), false));
    world.nearest = Some(TopMatch { point_id: 900, score: 0.95f32.to_bits() });
    let state = run(&m, &mut world);
    assert_eq!(state.phase, Phase::Collided);
}

#[test]
fn collisions_enabled_alone_runs_the_probe() {
    let mut m = message(4);
    m.dataset_config.collisions_enabled = true;
    let mut world = World::new();
    let state = run(&m, &mut world);
    assert_eq!(world.probes, 1);
    assert_eq!(state.phase, Phase::Committed);
}

#[test]
fn split_avg_embeds_every_sub_text_and_stores_their_mean() {
    let mut m = message(5);
    m.chunk.split_avg = Some(true);
    m.chunk_metadata.content = "x".repeat(10_000);
    let mut world = World::new();
    let state = run(&m, &mut world);

    assert_eq!(state.phase, Phase::Committed);
    assert_eq!(world.embedded.len(), 3);
    assert_eq!(world.embedded.concat(), m.chunk_metadata.content);
    assert_eq!(world.asked, vec!["embed", "embed", "embed", "average", "insert_chunk", "upsert_point"]);
    let expected = vec![(4000.0f32 + 4000.0 + 2000.0) / 3.0, 1.0, -(4000.0f32 + 4000.0 + 2000.0) / 3.0];
    assert_eq!(floats(&world.points[0].1), expected);
}

#[test]
fn split_avg_of_an_empty_content_fails_at_averaging() {
    let mut m = message(6);
    m.chunk.split_avg = Some(true);
    m.chunk_metadata.content = String::new();
    let mut world = World::new();
    let state = run(&m, &mut world);

    assert_eq!(state.phase, Phase::Failed);
    assert_eq!(state.error.as_ref().map(|e| e.failure), Some(UploadFailure::Averaging));
    assert!(world.asked.is_empty());
    assert!(world.rows.is_empty());
    match &world.events[0].event_type {
        EventType::CardUploadFailed { chunk_id, error } => {
            assert_eq!(*chunk_id, 6);
            let inner = ServiceError::InternalServerError(format!(
                "Failed to average embeddings: {:?}",
                "No embeddings to average"
            ));
            assert_eq!(error, &format!("Failed to upload chunk: {:?}", inner));
        }
        other => panic!("unexpected event {:?}", other),
    }
}

#[test]
fn a_failed_embedding_fails_the_upload_and_says_so_in_the_event() {
    let m = message(7);
    let mut world = World::new();
    world.failing.push("embed");
    let state = run(&m, &mut world);

    assert_eq!(state.phase, Phase::Failed);
    assert_eq!(state.stage(), Stage::Failed);
    assert!(state.is_finished());
    assert!(world.rows.is_empty());
    assert!(world.points.is_empty());
    match &world.events[0].event_type {
        EventType::CardUploadFailed { chunk_id, error } => {
            assert_eq!(*chunk_id, 7);
            assert_eq!(
                error,
                "Failed to upload chunk: InternalServerError(\"Failed to create embedding: embed is down\")"
            );
        }
        other => panic!("unexpected event {:?}", other),
    }
    match state.outcome() {
        Some(Err(ServiceError::InternalServerError(text))) => {
            assert_eq!(text, "Failed to create embedding: embed is down")
        }
        other => panic!("unexpected outcome {:?}", other),
    }
}

fn failure_of(step: &'static str, dedup: bool) -> (UploadState, World) {
    let mut m = message(8);
    if dedup {
        m.dataset_config.duplicate_distance_threshold = 0.5f32.to_bits();
    }
    let mut world = World::new();
    world.rows.push((100, Some(900), false));
    world.nearest = Some(TopMatch { point_id: 900, score: 0.9f32.to_bits() });
    world.failing.push(step);
    let state = run(&m, &mut world);
    (state, world)
}

#[test]
fn each_failing_step_is_reported_under_its_name() {
    let cases = [
        ("probe", true, UploadFailure::TopMatch, "Failed to get top match: probe is down"),
        ("fetch", true, UploadFailure::MetadataLookup, "Failed to get chunk metadata: fetch is down"),
        (
            "update_point",
            true,
            UploadFailure::UpdatePoint,
            "Failed to update qdrant point: update_point is down",
        ),
        (
            "insert_duplicate",
            true,
            UploadFailure::InsertDuplicate,
            "Failed to insert duplicate chunk metadata: insert_duplicate is down",
        ),
        (
            "insert_chunk",
            false,
            UploadFailure::InsertChunk,
            "Failed to insert chunk metadata: insert_chunk is down",
        ),
        (
            "upsert_point",
            false,
            UploadFailure::CreatePoint,
            "Failed to create new qdrant point: upsert_point is down",
        ),
    ];
    for (step, dedup, failure, text) in cases {
        let (state, world) = failure_of(step, dedup);
        assert_eq!(state.phase, Phase::Failed, "{}", step);
        let error = state.error.as_ref().unwrap();
        assert_eq!(error.failure, failure, "{}", step);
        match error.to_service_error() {
            ServiceError::InternalServerError(message) => assert_eq!(message, text),
            other => panic!("unexpected error {:?}", other),
        }
        assert_eq!(world.events.len(), 1);
        assert!(matches!(world.events[0].event_type, EventType::CardUploadFailed { chunk_id: 8, .. }));
    }
}

#[test]
fn a_failed_update_of_the_collided_point_inserts_no_duplicate_row() {
    let (_, world) = failure_of("update_point", true);
    assert_eq!(world.rows.len(), 1);
    assert!(!world.asked.contains(&"insert_duplicate"));
}

#[test]
fn a_failed_point_leaves_the_row_of_the_chunk_behind() {
    let (state, world) = failure_of("upsert_point", false);
    assert_eq!(world.rows.len(), 2);
    assert_eq!(world.rows[1].0, 8);
    assert_eq!(world.rows[1].1, Some(state.point_id));
    assert!(world.points.is_empty());
}

#[test]
fn a_collision_without_a_row_for_the_point_fails() {
    let mut m = message(9);
    m.dataset_config.duplicate_distance_threshold = 0.0f32.to_bits();
    let mut world = World::new();
    let state = run(&m, &mut world);
    assert_eq!(state.phase, Phase::Failed);
    assert_eq!(state.error.as_ref().map(|e| e.failure), Some(UploadFailure::MetadataLookup));
    assert_eq!(state.collision, Some(0));
    assert!(world.rows.is_empty());
}

#[test]
fn groups_are_bookmarked_in_both_stores_after_the_chunk_is_stored() {
    let mut m = message(10);
    m.chunk.group_ids = Some(vec![7, 8, 9]);
    let mut world = World::new();
    let state = run(&m, &mut world);

    assert_eq!(state.phase, Phase::Committed);
    assert_eq!(world.bookmarks, vec![(7, 10), (8, 10), (9, 10)]);
    let point = state.point_id;
    assert_eq!(world.payload_groups, vec![(point, 7), (point, 8), (point, 9)]);
    assert!(state.failed_bookmarks.is_empty());
    assert_eq!(
        world.asked,
        vec![
            "embed",
            "insert_chunk",
            "upsert_point",
            "create_bookmark",
            "add_bookmark",
            "create_bookmark",
            "add_bookmark",
            "create_bookmark",
            "add_bookmark"
        ]
    );
}

#[test]
fn the_groups_of_a_duplicate_are_bookmarked_on_the_point_it_references() {
    let mut m = message(30);
    m.dataset_config.duplicate_distance_threshold = 0.95f32.to_bits();
    m.chunk.group_ids = Some(vec![7]);
    let mut world = World::new();
    world.rows.push((100, Some(900), false));
    world.points.push((900, bits(&[1.0, 2.0, 3.0])));
    world.nearest = Some(TopMatch { point_id: 900, score: 0.99f32.to_bits() });
    let state = run(&m, &mut world);

    assert_eq!(state.phase, Phase::Collided);
    assert_eq!(world.bookmarks, vec![(7, 30)]);
    assert_eq!(world.payload_groups, vec![(900, 7)]);
    assert_eq!(world.points.len(), 1);
}

#[test]
fn a_failed_bookmark_is_a_warning_and_the_others_go_on() {
    let mut m = message(11);
    m.chunk.group_ids = Some(vec![7, 8, 9]);
    let mut world = World::new();
    world.failing.push("bookmark_8");
    let state = run(&m, &mut world);

    assert_eq!(state.phase, Phase::Committed);
    assert_eq!(state.failed_bookmarks, vec![8]);
    assert_eq!(world.bookmarks, vec![(7, 11), (9, 11)]);
    assert_eq!(world.payload_groups.len(), 2);
    assert!(matches!(world.events[0].event_type, EventType::CardUploaded { chunk_id: 11 }));
}

#[test]
fn a_failed_payload_bookmark_is_a_warning_too() {
    let mut m = message(12);
    m.chunk.group_ids = Some(vec![7, 8]);
    let mut world = World::new();
    world.failing.push("add_bookmark");
    let state = run(&m, &mut world);

    assert_eq!(state.phase, Phase::Committed);
    assert_eq!(state.failed_bookmarks, vec![7, 8]);
    assert_eq!(world.bookmarks, vec![(7, 12), (8, 12)]);
    assert!(world.payload_groups.is_empty());
}

#[test]
fn an_upsert_keeps_the_row_and_the_point_of_the_tracking_id() {
    let mut m = message(13);
    m.upsert_by_tracking_id = true;
    m.chunk_metadata.tracking_id = Some("t-1".to_string());
    m.chunk.group_ids = Some(vec![4]);
    let mut world = World::new();
    world.existing_row = Some(StoredChunk { id: 500, qdrant_point_id: Some(600) });
    let state = run(&m, &mut world);

    assert_eq!(state.phase, Phase::Committed);
    assert_eq!(state.chunk_id, 500);
    assert_eq!(state.point_id, 600);
    assert_eq!(world.points[0].0, 600);
    assert_eq!(world.bookmarks, vec![(4, 500)]);
    assert_eq!(world.payload_groups, vec![(600, 4)]);
    assert!(matches!(world.events[0].event_type, EventType::CardUploaded { chunk_id: 13 }));
}

#[test]
fn the_point_that_the_message_names_is_used() {
    let mut m = message(14);
    m.chunk_metadata.qdrant_point_id = Some(4242);
    let state = begin_upload(&m, LIMIT);
    assert_eq!(state.point_id, 4242);
    assert_eq!(state.chunk_id, 14);
    assert_eq!(state.phase, Phase::Received);
    assert_eq!(state.stage(), Stage::Received);
    assert!(!state.is_finished());
    assert!(state.outcome().is_none());
}

#[test]
fn a_fresh_point_is_a_random_uuid() {
    let m = message(15);
    let a = begin_upload(&m, LIMIT);
    let b = begin_upload(&m, LIMIT);
    assert!(is_version_four(a.point_id));
    assert!(is_version_four(b.point_id));
    assert_ne!(a.point_id, b.point_id);
}

#[test]
fn the_given_fresh_point_is_used_when_the_message_names_none() {
    let m = message(16);
    let state = start_upload(&m, 31337, LIMIT);
    assert_eq!(state.point_id, 31337);
    assert!(state.sub_texts.is_empty());
}

#[test]
fn sub_texts_are_cut_only_for_split_avg_without_a_vector() {
    let mut m = message(17);
    m.chunk_metadata.content = "abcdefgh".to_string();
    m.chunk.split_avg = Some(true);
    assert_eq!(start_upload(&m, 1, 3).sub_texts, vec!["abc", "def", "gh"]);
    m.chunk.chunk_vector = Some(vec![1, 2, 3]);
    assert!(start_upload(&m, 1, 3).sub_texts.is_empty());
}

#[test]
fn an_answer_that_was_not_waited_for_fails_the_upload() {
    let m = message(18);
    let state = start_upload(&m, 1, LIMIT);
    let (state, action) = upload_step(&m, state, UploadEvent::Done(Ok(())));
    assert_eq!(state.phase, Phase::Failed);
    assert_eq!(state.error.as_ref().map(|e| e.failure), Some(UploadFailure::UnexpectedAnswer));
    assert!(matches!(action, UploadAction::Conclude { .. }));
}

#[test]
fn nothing_happens_after_the_conclusion() {
    let m = message(19);
    let mut world = World::new();
    let state = run(&m, &mut world);
    assert_eq!(state.phase, Phase::Committed);
    let point = state.point_id;
    let (state, action) = upload_step(&m, state, UploadEvent::Start);
    assert!(matches!(action, UploadAction::Idle));
    assert_eq!(state.phase, Phase::Committed);
    assert_eq!(state.point_id, point);
}

#[test]
fn sub_text_embeddings_of_different_lengths_cannot_be_averaged() {
    let mut m = message(20);
    m.chunk.split_avg = Some(true);
    m.chunk_metadata.content = "abcdef".to_string();
    let state = start_upload(&m, 1, 3);
    let (state, _) = upload_step(&m, state, UploadEvent::Start);
    assert_eq!(state.phase, Phase::EmbeddingParts);
    let (state, action) = upload_step(&m, state, UploadEvent::Embedded(Ok(vec![1, 2, 3])));
    match action {
        UploadAction::Embed { text } => assert_eq!(text, "def"),
        other => panic!("unexpected action {:?}", other),
    }
    let (state, action) = upload_step(&m, state, UploadEvent::Embedded(Ok(vec![1, 2])));
    assert_eq!(state.phase, Phase::Failed);
    assert_eq!(state.error.as_ref().map(|e| e.failure), Some(UploadFailure::Averaging));
    match action {
        UploadAction::Conclude { event } => match event.event_type {
            EventType::CardUploadFailed { error, .. } => assert_eq!(
                error,
                "Failed to upload chunk: InternalServerError(\"Failed to average embeddings: \\\"Embeddings differ in length\\\"\")"
            ),
            other => panic!("unexpected event {:?}", other),
        },
        other => panic!("unexpected action {:?}", other),
    }
}

#[test]
fn the_stages_are_passed_in_order() {
    let mut m = message(21);
    m.dataset_config.collisions_enabled = true;
    let state = start_upload(&m, 1, LIMIT);
    assert_eq!(state.stage(), Stage::Received);
    let (state, _) = upload_step(&m, state, UploadEvent::Start);
    assert_eq!(state.stage(), Stage::Received);
    let (state, _) = upload_step(&m, state, UploadEvent::Embedded(Ok(vec![1])));
    assert_eq!(state.stage(), Stage::Embedded);
    let found = TopMatch { point_id: 0, score: 0.0f32.to_bits() };
    let (state, _) = upload_step(&m, state, UploadEvent::Probed(Ok(found)));
    assert_eq!(state.stage(), Stage::Probed);
    let row = StoredChunk { id: 21, qdrant_point_id: Some(1) };
    let (state, _) = upload_step(&m, state, UploadEvent::Inserted(Ok(row)));
    assert_eq!(state.stage(), Stage::Probed);
    let (state, _) = upload_step(&m, state, UploadEvent::Done(Ok(())));
    assert_eq!(state.stage(), Stage::Committed);
}

#[test]
fn the_actions_carry_the_ids_of_the_message() {
    let mut m = message(22);
    m.chunk.chunk_vector = Some(vec![1, 2]);
    m.upsert_by_tracking_id = true;
    let state = start_upload(&m, 77, LIMIT);
    let (state, action) = upload_step(&m, state, UploadEvent::Start);
    match action {
        UploadAction::InsertChunk { point_id, file_id, dataset_id, upsert_by_tracking_id } => {
            assert_eq!(point_id, 77);
            assert_eq!(file_id, Some(5));
            assert_eq!(dataset_id, 71);
            assert!(upsert_by_tracking_id);
        }
        other => panic!("unexpected action {:?}", other),
    }
    let row = StoredChunk { id: 22, qdrant_point_id: None };
    let (_, action) = upload_step(&m, state, UploadEvent::Inserted(Ok(row)));
    match action {
        UploadAction::UpsertPoint { point_id, vector, dataset_id } => {
            assert_eq!(point_id, 77);
            assert_eq!(vector, vec![1, 2]);
            assert_eq!(dataset_id, 70);
        }
        other => panic!("unexpected action {:?}", other),
    }
}

#[test]
fn a_service_error_prints_like_its_debug_form() {
    for text in ["plain", "with \"quotes\"", "back\\slash", "line\nbreak", "tab\t", "ünïcödé \u{1F600}", ""] {
        let internal = ServiceError::InternalServerError(text.to_string());
        assert_eq!(internal.to_debug_text(), format!("{:?}", internal));
        let bad = ServiceError::BadRequest(text.to_string());
        assert_eq!(bad.to_debug_text(), format!("{:?}", bad));
    }
}
