//! Decisions of the two gateways that do not need the stores themselves.

use vstd::prelude::*;
use crate::ids::NIL;
use crate::score::ZERO_BITS;
use crate::upload::{StoredChunk, TopMatch};

verus! {

/// What the metadata store does with a chunk that is handed in.
#[derive(Debug, PartialEq, Eq, Structural, Clone, Copy)]
pub enum InsertDecision {
    /// Insert a new row.
    Insert,
    /// Update the row `id` in place and keep the point it references.
    Update { id: u128, qdrant_point_id: Option<u128> },
}

/// The decision on a chunk: the row of its tracking id is updated in place
/// when the sender asks to upsert and such a row exists; else the chunk is
/// inserted.
pub open spec fn decide(upsert_by_tracking_id: bool, existing: Option<StoredChunk>) -> InsertDecision {
    match existing {
        Some(row) => if upsert_by_tracking_id {
            InsertDecision::Update { id: row.id, qdrant_point_id: row.qdrant_point_id }
        } else {
            InsertDecision::Insert
        },
        None => InsertDecision::Insert,
    }
}

/// Decides between insert and update in place, as [`decide`] says;
/// `existing` is the row of the dataset that carries the chunk's tracking
/// id, if there is one.
pub fn insert_decision(upsert_by_tracking_id: bool, existing: Option<StoredChunk>) -> (decision:
    InsertDecision)
    ensures
        decision == decide(upsert_by_tracking_id, existing),
{
    match existing {
        Some(row) => {
            if upsert_by_tracking_id {
                InsertDecision::Update { id: row.id, qdrant_point_id: row.qdrant_point_id }
            } else {
                InsertDecision::Insert
            }
        },
        None => InsertDecision::Insert,
    }
}

/// The answer of the duplicate probe for an empty dataset: no point, with a
/// score of zero.
pub open spec fn no_match() -> TopMatch {
    TopMatch { point_id: NIL, score: ZERO_BITS }
}

/// The answer of the duplicate probe: the nearest point that the index
/// found, and [`no_match`] where it found none.
pub fn top_match(nearest: Option<TopMatch>) -> (answer: TopMatch)
    ensures
        answer == match nearest {
            Some(found) => found,
            None => no_match(),
        },
{
    match nearest {
        Some(found) => found,
        None => TopMatch { point_id: NIL, score: ZERO_BITS },
    }
}

} // verus!
