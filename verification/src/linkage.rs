//! The linkage between metadata rows and points across the uploads.
//!
//! A run of the single-item pipeline alternates between the pipeline's
//! decision ([`crate::upload::step`]) and a collaborator's answer
//! ([`answers`]). [`keeps_linkage`] holds before the first step and after
//! every step of every run, and at a successful conclusion it says that every
//! row is linked. The bulk upload keeps the rows linked when both of its
//! writes succeed.

use vstd::prelude::*;
use crate::bulk::{items_cover, BulkItem};
use crate::model::IngestionMessage;
use crate::stores::{lemma_bookmark_keeps_groups, Point, Row, Stores};
use crate::upload::{
    collided_point, initial_state, step, Phase, UploadActionView, UploadEvent, UploadStateView,
};

verus! {

/// Whether `event` can be the answer to `action` on the stores `before`,
/// leaving the stores `after`.
///
/// A write that is reported as done has taken effect; any other answer
/// leaves the stores as they were. The vector index updates only points
/// that exist. Reads may answer anything.
pub open spec fn answers(
    before: Stores,
    msg: IngestionMessage,
    action: UploadActionView,
    event: UploadEvent,
    after: Stores,
) -> bool {
    match action {
        UploadActionView::UpdatePoint { point_id, .. } => {
            &&& after == before
            &&& event matches UploadEvent::Done(Ok(_)) ==> before.points.contains_key(point_id)
        },
        UploadActionView::InsertDuplicate { collision, .. } => {
            if event matches UploadEvent::Done(Ok(_)) {
                after == before.after_duplicate(msg, collision)
            } else {
                after == before
            }
        },
        UploadActionView::InsertChunk { point_id, dataset_id, upsert_by_tracking_id, .. } => {
            match event {
                UploadEvent::Inserted(Ok(row)) => {
                    &&& after == before.after_insert(
                        msg,
                        point_id,
                        dataset_id,
                        upsert_by_tracking_id,
                    )
                    &&& row == before.inserted_row(msg, point_id, dataset_id, upsert_by_tracking_id)
                },
                _ => after == before,
            }
        },
        UploadActionView::UpsertPoint { point_id, .. } => {
            if event matches UploadEvent::Done(Ok(_)) {
                after == before.after_upsert(msg, point_id)
            } else {
                after == before
            }
        },
        UploadActionView::AddBookmark { point_id, group_id } => {
            if event matches UploadEvent::Done(Ok(_)) {
                before.points.contains_key(point_id) && after == before.after_bookmark(
                    point_id,
                    group_id,
                )
            } else {
                after == before
            }
        },
        _ => after == before,
    }
}

/// Whether the action writes neither rows nor points.
pub open spec fn writes_nothing(action: UploadActionView) -> bool {
    match action {
        UploadActionView::Embed { .. }
        | UploadActionView::Average { .. }
        | UploadActionView::Probe { .. }
        | UploadActionView::FetchPointMetadata { .. }
        | UploadActionView::CreateBookmark { .. }
        | UploadActionView::Conclude { .. }
        | UploadActionView::Idle => true,
        _ => false,
    }
}

/// What holds of the stores while the pipeline is in the state `s` and waits
/// for the answer to `action`.
///
/// Every row is linked, with one exception: between the insert of the chunk's
/// row and the storing of its point, and after a failure, the chunk's own row
/// may name a point that is not stored.
pub open spec fn keeps_linkage(
    msg: IngestionMessage,
    s: UploadStateView,
    action: UploadActionView,
    stores: Stores,
) -> bool {
    match s.phase {
        Phase::UpdatingPoint => {
            &&& stores.linked()
            &&& action matches UploadActionView::UpdatePoint { point_id, .. }
            &&& point_id == collided_point(s)
        },
        Phase::InsertingDuplicate => {
            &&& stores.linked()
            &&& stores.points.contains_key(collided_point(s))
            &&& action matches UploadActionView::InsertDuplicate { collision, .. }
            &&& collision == collided_point(s)
        },
        Phase::InsertingChunk => {
            &&& stores.linked()
            &&& action matches UploadActionView::InsertChunk { point_id, .. }
            &&& point_id == s.point_id
        },
        Phase::UpsertingPoint => {
            &&& stores.linked_except(set![s.chunk_id])
            &&& stores.rows.contains_key(s.chunk_id) ==> stores.rows[s.chunk_id].point_id == Some(
                s.point_id,
            )
            &&& action matches UploadActionView::UpsertPoint { point_id, .. }
            &&& point_id == s.point_id
        },
        Phase::AddingBookmark { .. } => {
            &&& stores.linked()
            &&& action is AddBookmark
        },
        Phase::Failed => {
            &&& stores.linked_except(set![s.chunk_id])
            &&& writes_nothing(action)
        },
        _ => {
            &&& stores.linked()
            &&& writes_nothing(action)
        },
    }
}

/// Before the first step, with nothing asked, linked stores are in order.
pub proof fn lemma_linkage_at_start(msg: IngestionMessage, fresh: u128, limit: nat, stores: Stores)
    requires
        stores.linked(),
    ensures
        keeps_linkage(msg, initial_state(msg, fresh, limit), UploadActionView::Idle, stores),
{
}

/// A step of a run keeps the linkage: when it holds while the pipeline waits
/// for the answer to `action`, and `event` is that answer, it holds again
/// for the state and the action that the pipeline decides on.
pub proof fn lemma_step_keeps_linkage(
    msg: IngestionMessage,
    s: UploadStateView,
    action: UploadActionView,
    before: Stores,
    event: UploadEvent,
    after: Stores,
)
    requires
        keeps_linkage(msg, s, action, before),
        answers(before, msg, action, event, after),
    ensures
        keeps_linkage(msg, step(msg, s, event).0, step(msg, s, event).1, after),
{
    let next = step(msg, s, event);
    match s.phase {
        Phase::InsertingChunk => {
            if let UploadEvent::Inserted(Ok(row)) = event {
                let point_id = action->InsertChunk_point_id;
                let dataset_id = action->InsertChunk_dataset_id;
                let upsert = action->InsertChunk_upsert_by_tracking_id;
                if before.updates_in_place(msg, dataset_id, upsert) {
                    let t = msg.chunk_metadata.tracking_text()->0;
                    assert(before.is_tracked_by(before.tracked_row(dataset_id, t), dataset_id, t));
                    assert(before.row_is_linked(row.id));
                } else {
                    assert forall|id: u128|
                        after.rows.contains_key(id) && !set![row.id].contains(
                            id,
                        ) implies #[trigger] after.row_is_linked(id) by {
                        assert(before.row_is_linked(id));
                    }
                }
            }
        },
        Phase::UpsertingPoint => {
            if event matches UploadEvent::Done(Ok(_)) {
                assert forall|id: u128|
                    after.rows.contains_key(id) && !Set::<u128>::empty().contains(
                        id,
                    ) implies #[trigger] after.row_is_linked(id) by {
                    if id != s.chunk_id {
                        assert(before.row_is_linked(id));
                    }
                }
            }
        },
        Phase::InsertingDuplicate => {
            if event matches UploadEvent::Done(Ok(_)) {
                assert forall|id: u128|
                    after.rows.contains_key(id) && !Set::<u128>::empty().contains(
                        id,
                    ) implies #[trigger] after.row_is_linked(id) by {
                    if id != msg.chunk_metadata.id {
                        assert(before.row_is_linked(id));
                    }
                }
            }
        },
        Phase::AddingBookmark { .. } => {
            if event matches UploadEvent::Done(Ok(_)) {
                assert forall|id: u128|
                    after.rows.contains_key(id) && !Set::<u128>::empty().contains(
                        id,
                    ) implies #[trigger] after.row_is_linked(id) by {
                    assert(before.row_is_linked(id));
                }
            }
        },
        _ => {},
    }
    if next.0.phase == Phase::Failed {
        assert forall|id: u128|
            after.rows.contains_key(id) && !set![next.0.chunk_id].contains(
                id,
            ) implies #[trigger] after.row_is_linked(id) by {
            if s.phase == Phase::UpsertingPoint || s.phase == Phase::Failed {
                assert(before.linked_except(set![s.chunk_id]));
            } else {
                assert(before.linked());
                assert(before.row_is_linked(id));
            }
        }
    }
}

/// The state of a run, and the action it waits for, after the pipeline took
/// the answers `events` in turn.
pub open spec fn after_events(msg: IngestionMessage, fresh: u128, limit: nat, events: Seq<UploadEvent>) -> (
    UploadStateView,
    UploadActionView,
)
    decreases events.len(),
{
    if events.len() == 0 {
        (initial_state(msg, fresh, limit), UploadActionView::Idle)
    } else {
        step(msg, after_events(msg, fresh, limit, events.drop_last()).0, events.last())
    }
}

/// Whether `stores` is a history of the stores along a run: one more entry
/// than there are answers, and each answer leads from one entry to the next.
pub open spec fn is_history(
    msg: IngestionMessage,
    fresh: u128,
    limit: nat,
    events: Seq<UploadEvent>,
    stores: Seq<Stores>,
) -> bool {
    &&& stores.len() == events.len() + 1
    &&& forall|i: int|
        0 <= i < events.len() ==> answers(
            #[trigger] stores[i],
            msg,
            after_events(msg, fresh, limit, events.take(i)).1,
            events[i],
            stores[i + 1],
        )
}

/// Every run keeps the linkage: whatever the collaborators answer, and
/// however far the run has come, [`keeps_linkage`] holds of the stores it has
/// left, provided every row was linked when it began.
pub proof fn lemma_run_keeps_linkage(
    msg: IngestionMessage,
    fresh: u128,
    limit: nat,
    events: Seq<UploadEvent>,
    stores: Seq<Stores>,
)
    requires
        is_history(msg, fresh, limit, events, stores),
        stores[0].linked(),
    ensures
        keeps_linkage(
            msg,
            after_events(msg, fresh, limit, events).0,
            after_events(msg, fresh, limit, events).1,
            stores.last(),
        ),
    decreases events.len(),
{
    if events.len() == 0 {
        lemma_linkage_at_start(msg, fresh, limit, stores[0]);
    } else {
        let n = events.len() - 1;
        let earlier = events.drop_last();
        let before = stores.drop_last();
        assert(events.take(n) == earlier);
        assert forall|i: int| 0 <= i < earlier.len() implies answers(
            #[trigger] before[i],
            msg,
            after_events(msg, fresh, limit, earlier.take(i)).1,
            earlier[i],
            before[i + 1],
        ) by {
            assert(earlier.take(i) == events.take(i));
            assert(before[i] == stores[i]);
        }
        lemma_run_keeps_linkage(msg, fresh, limit, earlier, before);
        let (s, action) = after_events(msg, fresh, limit, earlier);
        assert(before.last() == stores[n]);
        assert(answers(stores[n], msg, action, events[n], stores[n + 1]));
        lemma_step_keeps_linkage(msg, s, action, stores[n], events[n], stores[n + 1]);
    }
}

/// A run that ends with the chunk stored, as a new point or as a duplicate,
/// leaves every row linked: each row that names a point either owns a stored
/// point or is marked as a duplicate of one.
pub proof fn lemma_stored_chunk_leaves_rows_linked(
    msg: IngestionMessage,
    fresh: u128,
    limit: nat,
    events: Seq<UploadEvent>,
    stores: Seq<Stores>,
)
    requires
        is_history(msg, fresh, limit, events, stores),
        stores[0].linked(),
        after_events(msg, fresh, limit, events).0.phase == Phase::Committed || after_events(
            msg,
            fresh,
            limit,
            events,
        ).0.phase == Phase::Collided,
    ensures
        stores.last().linked(),
{
    lemma_run_keeps_linkage(msg, fresh, limit, events, stores);
}

/// A run that fails leaves every row linked but, at most, the row of its own
/// chunk.
pub proof fn lemma_failed_upload_leaves_other_rows_linked(
    msg: IngestionMessage,
    fresh: u128,
    limit: nat,
    events: Seq<UploadEvent>,
    stores: Seq<Stores>,
)
    requires
        is_history(msg, fresh, limit, events, stores),
        stores[0].linked(),
        after_events(msg, fresh, limit, events).0.phase == Phase::Failed,
    ensures
        stores.last().linked_except(set![after_events(msg, fresh, limit, events).0.chunk_id]),
{
    lemma_run_keeps_linkage(msg, fresh, limit, events, stores);
}

/// A bookmark that the vector index reports as added is in the payload of
/// the point, next to the groups that were there before.
pub proof fn lemma_bookmark_reaches_payload(
    msg: IngestionMessage,
    before: Stores,
    point_id: u128,
    group_id: u128,
    event: UploadEvent,
    after: Stores,
    other: u128,
)
    requires
        answers(before, msg, UploadActionView::AddBookmark { point_id, group_id }, event, after),
        event matches UploadEvent::Done(Ok(_)),
    ensures
        after.points.contains_key(point_id),
        after.points[point_id].group_ids.contains(group_id),
        before.points[point_id].group_ids.contains(other) ==> after.points[point_id].group_ids.contains(
            other,
        ),
{
    lemma_bookmark_keeps_groups(before.points[point_id].group_ids, group_id, other);
}

/// At the successful end of a run every row is linked: each row that names a
/// point either owns a stored point or is marked as a duplicate of one.
pub proof fn lemma_concluded_upload_is_linked(
    msg: IngestionMessage,
    s: UploadStateView,
    action: UploadActionView,
    stores: Stores,
    id: u128,
)
    requires
        keeps_linkage(msg, s, action, stores),
        s.phase == Phase::Committed || s.phase == Phase::Collided,
        stores.rows.contains_key(id),
    ensures
        stores.row_is_linked(id),
{
}


/// The row that the bulk upload inserts for an item.
pub open spec fn bulk_row(item: BulkItem) -> Row {
    Row {
        point_id: item.metadata.qdrant_point_id,
        duplicate: false,
        dataset_id: item.metadata.dataset_id,
        tracking_id: item.metadata.tracking_text(),
    }
}

/// The point that the bulk upload stores for an item.
pub open spec fn bulk_point(item: BulkItem) -> Point {
    Point { group_ids: item.metadata.groups() }
}

/// The stores after the metadata store inserted the rows of all items.
pub open spec fn after_bulk_insert(stores: Stores, items: Seq<BulkItem>) -> Stores
    decreases items.len(),
{
    if items.len() == 0 {
        stores
    } else {
        let before = after_bulk_insert(stores, items.drop_last());
        Stores {
            rows: before.rows.insert(items.last().metadata.id, bulk_row(items.last())),
            ..before
        }
    }
}

/// The stores after the vector index stored the points of all items.
pub open spec fn after_bulk_upsert(stores: Stores, items: Seq<BulkItem>) -> Stores
    decreases items.len(),
{
    if items.len() == 0 {
        stores
    } else {
        let before = after_bulk_upsert(stores, items.drop_last());
        Stores {
            points: before.points.insert(items.last().point_id, bulk_point(items.last())),
            ..before
        }
    }
}

/// Whether the row of an item names the point of the item.
pub open spec fn row_names_point(item: BulkItem) -> bool {
    item.metadata.qdrant_point_id == Some(item.point_id)
}

proof fn lemma_bulk_insert_rows(stores: Stores, items: Seq<BulkItem>, id: u128)
    ensures
        after_bulk_insert(stores, items).points == stores.points,
        after_bulk_insert(stores, items).rows.contains_key(id) ==> {
            ||| (stores.rows.contains_key(id) && after_bulk_insert(stores, items).rows[id]
                == stores.rows[id])
            ||| exists|k: int|
                0 <= k < items.len() && after_bulk_insert(stores, items).rows[id] == bulk_row(
                    #[trigger] items[k],
                )
        },
    decreases items.len(),
{
    if items.len() > 0 {
        let front = items.drop_last();
        lemma_bulk_insert_rows(stores, front, id);
        let after = after_bulk_insert(stores, items);
        if after.rows.contains_key(id) {
            if id == items.last().metadata.id {
                assert(after.rows[id] == bulk_row(items[items.len() - 1]));
            } else if !(stores.rows.contains_key(id) && after.rows[id] == stores.rows[id]) {
                let k = choose|k: int|
                    0 <= k < front.len() && after_bulk_insert(stores, front).rows[id] == bulk_row(
                        #[trigger] front[k],
                    );
                assert(after.rows[id] == bulk_row(items[k]));
            }
        }
    }
}

proof fn lemma_bulk_upsert_points(stores: Stores, items: Seq<BulkItem>)
    ensures
        after_bulk_upsert(stores, items).rows == stores.rows,
        forall|p: u128|
            stores.points.contains_key(p) ==> #[trigger] after_bulk_upsert(
                stores,
                items,
            ).points.contains_key(p),
        forall|k: int|
            0 <= k < items.len() ==> after_bulk_upsert(stores, items).points.contains_key(
                (#[trigger] items[k]).point_id,
            ),
    decreases items.len(),
{
    if items.len() > 0 {
        let front = items.drop_last();
        lemma_bulk_upsert_points(stores, front);
        assert forall|k: int| 0 <= k < items.len() implies after_bulk_upsert(
            stores,
            items,
        ).points.contains_key((#[trigger] items[k]).point_id) by {
            if k < front.len() {
                assert(front[k] == items[k]);
            }
        }
    }
}

/// The bulk upload keeps the linkage when both of its writes succeed: with
/// the rows of all items inserted and the points of all items stored, every
/// row is linked, each new row as the owner of the point written for it,
/// provided every row was linked before and the row of each item names the
/// point of the item.
pub proof fn lemma_bulk_upload_is_linked(stores: Stores, items: Seq<BulkItem>)
    requires
        stores.linked(),
        forall|k: int| 0 <= k < items.len() ==> row_names_point(#[trigger] items[k]),
    ensures
        after_bulk_upsert(after_bulk_insert(stores, items), items).linked(),
{
    let inserted = after_bulk_insert(stores, items);
    let done = after_bulk_upsert(inserted, items);
    lemma_bulk_upsert_points(inserted, items);
    assert forall|id: u128|
        done.rows.contains_key(id) && !Set::<u128>::empty().contains(
            id,
        ) implies #[trigger] done.row_is_linked(id) by {
        lemma_bulk_insert_rows(stores, items, id);
        if stores.rows.contains_key(id) && inserted.rows[id] == stores.rows[id] {
            assert(stores.row_is_linked(id));
            let p = stores.rows[id].point_id->0;
            assert(stores.points.contains_key(p));
            assert(inserted.points.contains_key(p));
        } else {
            let k = choose|k: int|
                0 <= k < items.len() && inserted.rows[id] == bulk_row(#[trigger] items[k]);
            assert(row_names_point(items[k]));
        }
    }
}

/// After the bulk insert the row of each item's chunk is there, written for
/// an item of that chunk.
proof fn lemma_bulk_rows_are_written(stores: Stores, items: Seq<BulkItem>, k: int)
    requires
        0 <= k < items.len(),
    ensures
        after_bulk_insert(stores, items).rows.contains_key(items[k].metadata.id),
        exists|j: int|
            0 <= j < items.len() && after_bulk_insert(stores, items).rows[items[k].metadata.id]
                == bulk_row(#[trigger] items[j]),
    decreases items.len(),
{
    let id = items[k].metadata.id;
    let last = items.len() - 1;
    if items[last].metadata.id == id {
        assert(after_bulk_insert(stores, items).rows[id] == bulk_row(items[last]));
    } else {
        let front = items.drop_last();
        assert(front[k] == items[k]);
        lemma_bulk_rows_are_written(stores, front, k);
        let j = choose|j: int|
            0 <= j < front.len() && after_bulk_insert(stores, front).rows[id] == bulk_row(
                #[trigger] front[j],
            );
        assert(after_bulk_insert(stores, items).rows[id] == bulk_row(items[j]));
    }
}

/// The bulk upload of what [`crate::bulk::assemble`] builds, with both
/// writes succeeding, leaves every row linked, and for every message that
/// was embedded a row that is no duplicate and owns a stored point.
pub proof fn lemma_assembled_bulk_upload_is_linked(
    stores: Stores,
    items: Seq<BulkItem>,
    batch: Seq<IngestionMessage>,
    embeddings: Seq<Option<Vec<u32>>>,
)
    requires
        stores.linked(),
        items_cover(items, batch, embeddings),
    ensures
        after_bulk_upsert(after_bulk_insert(stores, items), items).linked(),
        forall|k: int|
            0 <= k < items.len() ==> {
                let done = after_bulk_upsert(after_bulk_insert(stores, items), items);
                &&& done.rows.contains_key((#[trigger] items[k]).metadata.id)
                &&& done.owns_point(items[k].metadata.id)
            },
{
    let inserted = after_bulk_insert(stores, items);
    let done = after_bulk_upsert(inserted, items);
    assert forall|k: int| 0 <= k < items.len() implies row_names_point(#[trigger] items[k]) by {
        lemma_assembled_rows_name_points(items, batch, embeddings, k);
    }
    lemma_bulk_upload_is_linked(stores, items);
    lemma_bulk_upsert_points(inserted, items);
    assert forall|k: int| 0 <= k < items.len() implies {
        &&& done.rows.contains_key((#[trigger] items[k]).metadata.id)
        &&& done.owns_point(items[k].metadata.id)
    } by {
        lemma_bulk_rows_are_written(stores, items, k);
        let id = items[k].metadata.id;
        let j = choose|j: int|
            0 <= j < items.len() && inserted.rows[id] == bulk_row(#[trigger] items[j]);
        assert(row_names_point(items[j]));
        assert(done.points.contains_key(items[j].point_id));
    }
}

/// What [`crate::bulk::assemble`] builds meets the condition of
/// [`lemma_bulk_upload_is_linked`]: the row of each item names the point of
/// the item.
pub proof fn lemma_assembled_rows_name_points(
    items: Seq<BulkItem>,
    batch: Seq<IngestionMessage>,
    embeddings: Seq<Option<Vec<u32>>>,
    k: int,
)
    requires
        items_cover(items, batch, embeddings),
        0 <= k < items.len(),
    ensures
        row_names_point(items[k]),
{
}

} // verus!
