//! A model of the two stores, and what the pipeline's writes do to them.
//!
//! The metadata store is a map from chunk ids to rows, the vector index a map
//! from point ids to points. The model keeps what the linkage between the two
//! needs: the point a row references, whether the row is a duplicate, the key
//! of an upsert, and the groups in a point's payload.

use vstd::prelude::*;
use crate::model::IngestionMessage;
use crate::upload::StoredChunk;

verus! {

/// A row of the metadata store.
pub struct Row {
    pub point_id: Option<u128>,
    /// Whether the row was stored as a duplicate of an existing point.
    pub duplicate: bool,
    pub dataset_id: u128,
    pub tracking_id: Option<Seq<char>>,
}

/// A point of the vector index.
pub struct Point {
    /// The groups in the point's payload.
    pub group_ids: Seq<u128>,
}

/// The two stores.
pub struct Stores {
    pub rows: Map<u128, Row>,
    pub points: Map<u128, Point>,
}

/// The payload groups after a bookmark: the group is appended unless it is
/// there already.
pub open spec fn with_group(groups: Seq<u128>, group_id: u128) -> Seq<u128> {
    if groups.contains(group_id) {
        groups
    } else {
        groups.push(group_id)
    }
}

impl Stores {
    /// Whether the row `id` names a point that the vector index holds.
    pub open spec fn names_stored_point(self, id: u128) -> bool {
        self.rows[id].point_id matches Some(p) && self.points.contains_key(p)
    }

    /// Whether the row `id` owns a stored point: it names one and is no
    /// duplicate.
    pub open spec fn owns_point(self, id: u128) -> bool {
        !self.rows[id].duplicate && self.names_stored_point(id)
    }

    /// Whether the row `id` is marked as a duplicate of a stored point.
    pub open spec fn duplicates_point(self, id: u128) -> bool {
        self.rows[id].duplicate && self.names_stored_point(id)
    }

    /// Whether the row `id` is linked: it owns a stored point, or it is
    /// marked as a duplicate of one, and not both. A row that names no
    /// point, or one that the vector index does not hold, is not linked.
    pub open spec fn row_is_linked(self, id: u128) -> bool {
        self.owns_point(id) != self.duplicates_point(id)
    }

    /// Whether every row but those in `exempt` is linked.
    pub open spec fn linked_except(self, exempt: Set<u128>) -> bool {
        forall|id: u128|
            self.rows.contains_key(id) && !exempt.contains(id) ==> #[trigger] self.row_is_linked(
                id,
            )
    }

    /// Whether every row is linked.
    pub open spec fn linked(self) -> bool {
        self.linked_except(Set::empty())
    }

    /// Whether a row of `dataset_id` carries the tracking id.
    pub open spec fn tracks(self, dataset_id: u128, tracking_id: Seq<char>) -> bool {
        exists|id: u128| self.is_tracked_by(id, dataset_id, tracking_id)
    }

    /// Whether the row `id` is of `dataset_id` and carries the tracking id.
    pub open spec fn is_tracked_by(self, id: u128, dataset_id: u128, tracking_id: Seq<char>) -> bool {
        self.rows.contains_key(id) && self.rows[id].dataset_id == dataset_id
            && self.rows[id].tracking_id == Some(tracking_id)
    }

    /// A row of `dataset_id` that carries the tracking id.
    pub open spec fn tracked_row(self, dataset_id: u128, tracking_id: Seq<char>) -> u128 {
        choose|id: u128| self.is_tracked_by(id, dataset_id, tracking_id)
    }

    /// Whether an insert of the message is turned into an update: upsert is
    /// asked for and a row of the dataset carries the message's tracking id.
    pub open spec fn updates_in_place(self, msg: IngestionMessage, dataset_id: u128, upsert: bool) -> bool {
        upsert && match msg.chunk_metadata.tracking_text() {
            Some(t) => self.tracks(dataset_id, t),
            None => false,
        }
    }

    /// The stores after the metadata store inserted the chunk with
    /// `point_id` as its point. Where the insert is an update, the existing
    /// row keeps its id and its point.
    pub open spec fn after_insert(
        self,
        msg: IngestionMessage,
        point_id: u128,
        dataset_id: u128,
        upsert: bool,
    ) -> Stores {
        if self.updates_in_place(msg, dataset_id, upsert) {
            self
        } else {
            Stores {
                rows: self.rows.insert(
                    msg.chunk_metadata.id,
                    Row {
                        point_id: Some(point_id),
                        duplicate: false,
                        dataset_id,
                        tracking_id: msg.chunk_metadata.tracking_text(),
                    },
                ),
                ..self
            }
        }
    }

    /// The row that the metadata store reports after that insert.
    pub open spec fn inserted_row(
        self,
        msg: IngestionMessage,
        point_id: u128,
        dataset_id: u128,
        upsert: bool,
    ) -> StoredChunk {
        if self.updates_in_place(msg, dataset_id, upsert) {
            let id = self.tracked_row(dataset_id, msg.chunk_metadata.tracking_text()->0);
            StoredChunk { id, qdrant_point_id: self.rows[id].point_id }
        } else {
            StoredChunk { id: msg.chunk_metadata.id, qdrant_point_id: Some(point_id) }
        }
    }

    /// The stores after the metadata store inserted the chunk as a duplicate
    /// of the point `collision`.
    pub open spec fn after_duplicate(self, msg: IngestionMessage, collision: u128) -> Stores {
        Stores {
            rows: self.rows.insert(
                msg.chunk_metadata.id,
                Row {
                    point_id: Some(collision),
                    duplicate: true,
                    dataset_id: msg.chunk_metadata.dataset_id,
                    tracking_id: msg.chunk_metadata.tracking_text(),
                },
            ),
            ..self
        }
    }

    /// The stores after the vector index stored the point `point_id` for the
    /// chunk.
    pub open spec fn after_upsert(self, msg: IngestionMessage, point_id: u128) -> Stores {
        Stores {
            points: self.points.insert(point_id, Point { group_ids: msg.chunk_metadata.groups() }),
            ..self
        }
    }

    /// The stores after the vector index added the group to the payload of
    /// the point, which must exist.
    pub open spec fn after_bookmark(self, point_id: u128, group_id: u128) -> Stores {
        Stores {
            points: self.points.insert(
                point_id,
                Point { group_ids: with_group(self.points[point_id].group_ids, group_id) },
            ),
            ..self
        }
    }
}

/// Adds a group to the groups of a point's payload, keeping the list free
/// of repetitions: a group that is listed already is not listed again.
pub fn add_bookmark(groups: Vec<u128>, group_id: u128) -> (updated: Vec<u128>)
    ensures
        updated@ == with_group(groups@, group_id),
{
    let mut i: usize = 0;
    while i < groups.len()
        invariant
            i <= groups.len(),
            forall|j: int| 0 <= j < i ==> groups@[j] != group_id,
        decreases groups.len() - i,
    {
        if groups[i] == group_id {
            return groups;
        }
        i += 1;
    }
    let mut updated = groups;
    updated.push(group_id);
    updated
}

/// Adding a group a second time leaves the payload as the first time left
/// it.
pub proof fn lemma_bookmark_twice(groups: Seq<u128>, group_id: u128)
    ensures
        with_group(with_group(groups, group_id), group_id) == with_group(groups, group_id),
{
    if !groups.contains(group_id) {
        assert(groups.push(group_id)[groups.len() as int] == group_id);
    }
}

/// After a bookmark the payload lists the group, and everything it listed
/// before.
pub proof fn lemma_bookmark_keeps_groups(groups: Seq<u128>, group_id: u128, other: u128)
    ensures
        with_group(groups, group_id).contains(group_id),
        groups.contains(other) ==> with_group(groups, group_id).contains(other),
{
    if !groups.contains(group_id) {
        assert(groups.push(group_id)[groups.len() as int] == group_id);
    }
    if groups.contains(other) {
        let k = choose|k: int| 0 <= k < groups.len() && groups[k] == other;
        assert(with_group(groups, group_id)[k] == other);
    }
}

/// On the stores a second bookmark of the same group changes nothing.
pub proof fn lemma_store_bookmark_twice(stores: Stores, point_id: u128, group_id: u128)
    ensures
        stores.after_bookmark(point_id, group_id).after_bookmark(point_id, group_id)
            == stores.after_bookmark(point_id, group_id),
{
    lemma_bookmark_twice(stores.points[point_id].group_ids, group_id);
    let once = stores.after_bookmark(point_id, group_id);
    let twice = once.after_bookmark(point_id, group_id);
    assert(twice.points =~= once.points);
}


impl Stores {
    /// Whether a dataset and a tracking id name at most one row.
    pub open spec fn tracking_is_unique(self) -> bool {
        forall|a: u128, b: u128, dataset_id: u128, tracking_id: Seq<char>|
            #![trigger self.is_tracked_by(a, dataset_id, tracking_id), self.is_tracked_by(b, dataset_id, tracking_id)]
            self.is_tracked_by(a, dataset_id, tracking_id) && self.is_tracked_by(
                b,
                dataset_id,
                tracking_id,
            ) ==> a == b
    }
}

/// An insert with upsert by tracking id is idempotent: handed in a second
/// time, a chunk with a tracking id updates the row that the first time
/// left, and the stores stay as they were.
pub proof fn lemma_upsert_is_idempotent(
    stores: Stores,
    msg: IngestionMessage,
    first_point: u128,
    second_point: u128,
    dataset_id: u128,
)
    requires
        msg.chunk_metadata.tracking_id is Some,
    ensures
        ({
            let once = stores.after_insert(msg, first_point, dataset_id, true);
            &&& once.updates_in_place(msg, dataset_id, true)
            &&& once.after_insert(msg, second_point, dataset_id, true) == once
        }),
{
    let t = msg.chunk_metadata.tracking_text()->0;
    let once = stores.after_insert(msg, first_point, dataset_id, true);
    if stores.updates_in_place(msg, dataset_id, true) {
        assert(once.tracks(dataset_id, t));
    } else {
        assert(once.is_tracked_by(msg.chunk_metadata.id, dataset_id, t));
    }
}

/// An insert with upsert by tracking id keeps tracking ids unique within a
/// dataset.
pub proof fn lemma_upsert_keeps_tracking_unique(
    stores: Stores,
    msg: IngestionMessage,
    point_id: u128,
    dataset_id: u128,
)
    requires
        stores.tracking_is_unique(),
    ensures
        stores.after_insert(msg, point_id, dataset_id, true).tracking_is_unique(),
{
    let after = stores.after_insert(msg, point_id, dataset_id, true);
    if !stores.updates_in_place(msg, dataset_id, true) {
        let id = msg.chunk_metadata.id;
        assert forall|a: u128, b: u128, d: u128, t: Seq<char>|
            #![trigger after.is_tracked_by(a, d, t), after.is_tracked_by(b, d, t)]
            after.is_tracked_by(a, d, t) && after.is_tracked_by(b, d, t) implies a == b by {
            if a != b {
                if a == id {
                    assert(stores.is_tracked_by(b, d, t));
                    assert(stores.tracks(d, t));
                } else if b == id {
                    assert(stores.is_tracked_by(a, d, t));
                    assert(stores.tracks(d, t));
                } else {
                    assert(stores.is_tracked_by(a, d, t));
                    assert(stores.is_tracked_by(b, d, t));
                }
            }
        }
    }
}

} // verus!
