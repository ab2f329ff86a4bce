//! The decisions of the bulk upload: which messages of a batch survive the
//! tracking-id check, and what is written for those that were embedded.

use std::collections::HashMap;
use vstd::prelude::*;
use crate::ids::{is_random_layout, random_id};
use crate::model::{ChunkMetadata, DatasetConfig, IngestionMessage};
use crate::text::texts;
use crate::vectors::copy_vector;

verus! {

broadcast use vstd::std_specs::hash::group_hash_axioms;

/// What the bulk upload writes for one message: the row for the metadata
/// store and the point for the vector index.
#[derive(Debug, Clone, PartialEq, Eq)]
pub struct BulkItem {
    pub metadata: ChunkMetadata,
    pub point_id: u128,
    pub vector: Vec<u32>,
    pub dataset_id: u128,
    pub config: DatasetConfig,
}

/// The tracking id of a message when the message is of the dataset.
pub open spec fn tracking_in(dataset_id: u128) -> spec_fn(IngestionMessage) -> Option<Seq<char>> {
    |m: IngestionMessage|
        if m.dataset_id == dataset_id {
            m.chunk_metadata.tracking_text()
        } else {
            None
        }
}

/// The tracking ids that the batch carries for a dataset, in arrival order.
pub open spec fn tracking_ids_of(batch: Seq<IngestionMessage>, dataset_id: u128) -> Seq<Seq<char>> {
    batch.filter_map(tracking_in(dataset_id))
}

/// Whether the groups are the tracking ids of the batch, keyed by dataset:
/// there is a group for exactly the datasets for which the batch carries a
/// tracking id, and it lists the tracking ids of its dataset in arrival
/// order, repetitions included.
pub open spec fn groups_cover(groups: Map<u128, Vec<String>>, batch: Seq<IngestionMessage>) -> bool {
    forall|dataset_id: u128|
        #![trigger groups.contains_key(dataset_id)]
        #![trigger tracking_ids_of(batch, dataset_id)]
        {
            &&& groups.contains_key(dataset_id) <==> tracking_ids_of(batch, dataset_id).len() > 0
            &&& groups.contains_key(dataset_id) ==> texts(groups[dataset_id]@) == tracking_ids_of(
                batch,
                dataset_id,
            )
        }
}

proof fn lemma_tracking_ids_grow(batch: Seq<IngestionMessage>, dataset_id: u128)
    requires
        batch.len() > 0,
    ensures
        tracking_ids_of(batch, dataset_id) == match tracking_in(dataset_id)(batch.last()) {
            Some(t) => tracking_ids_of(batch.drop_last(), dataset_id).push(t),
            None => tracking_ids_of(batch.drop_last(), dataset_id),
        },
{
    let f = tracking_in(dataset_id);
    match f(batch.last()) {
        Some(t) => {
            assert(batch.drop_last().filter_map(f) + seq![t] =~= batch.drop_last().filter_map(
                f,
            ).push(t));
        },
        None => {},
    }
}

/// Collects the tracking ids of a batch, grouped by dataset.
///
/// There is one group for each dataset for which the batch carries a
/// tracking id. A group lists the tracking ids of its dataset in arrival
/// order, repetitions included.
pub fn tracking_groups(batch: &Vec<IngestionMessage>) -> (groups: HashMap<u128, Vec<String>>)
    ensures
        groups_cover(groups@, batch@),
{
    let mut groups: HashMap<u128, Vec<String>> = HashMap::new();
    let mut i: usize = 0;
    while i < batch.len()
        invariant
            i <= batch.len(),
            groups_cover(groups@, batch@.take(i as int)),
        decreases batch.len() - i,
    {
        let ghost seen = batch@.take(i as int);
        let ghost next = batch@.take(i + 1);
        let ghost old_groups = groups@;
        proof {
            assert(next.drop_last() =~= seen);
            assert(next.last() == batch@[i as int]);
            assert forall|d: u128| true implies #[trigger] tracking_ids_of(next, d)
                == match tracking_in(d)(next.last()) {
                Some(t) => tracking_ids_of(seen, d).push(t),
                None => tracking_ids_of(seen, d),
            } by {
                lemma_tracking_ids_grow(next, d);
            }
        }
        let message = &batch[i];
        match &message.chunk_metadata.tracking_id {
            Some(tracking_id) => {
                let dataset_id = message.dataset_id;
                let mut ids = match groups.remove(&dataset_id) {
                    Some(ids) => ids,
                    None => Vec::new(),
                };
                proof {
                    assert(texts(ids@) =~= tracking_ids_of(seen, dataset_id)) by {
                        assert(old_groups.contains_key(dataset_id) <==> tracking_ids_of(
                            seen,
                            dataset_id,
                        ).len() > 0);
                    }
                }
                let ghost before = texts(ids@);
                ids.push(tracking_id.clone());
                proof {
                    assert(texts(ids@) =~= before.push(tracking_id@));
                }
                groups.insert(dataset_id, ids);
                proof {
                    assert forall|d: u128|
                        #![trigger groups@.contains_key(d)]
                        #![trigger tracking_ids_of(next, d)]
                        {
                            &&& groups@.contains_key(d) <==> tracking_ids_of(next, d).len() > 0
                            &&& groups@.contains_key(d) ==> texts(groups@[d]@) == tracking_ids_of(
                                next,
                                d,
                            )
                        } by {
                        if d != dataset_id {
                            assert(groups@.contains_key(d) == old_groups.contains_key(d));
                            assert(tracking_ids_of(next, d) == tracking_ids_of(seen, d));
                        }
                    }
                }
            },
            None => {
                proof {
                    assert forall|d: u128| true implies #[trigger] tracking_ids_of(next, d)
                        == tracking_ids_of(seen, d) by {}
                }
            },
        }
        i += 1;
    }
    proof {
        assert(batch@.take(batch@.len() as int) =~= batch@);
    }
    groups
}

/// Whether one of the lookups that succeeded returned a row of the dataset
/// with the tracking id.
pub open spec fn is_stored(
    lookups: Seq<Option<Vec<ChunkMetadata>>>,
    dataset_id: u128,
    tracking_id: Seq<char>,
) -> bool {
    exists|i: int, j: int| found_at(lookups, dataset_id, tracking_id, i, j)
}

/// Whether the row is of the dataset and carries the tracking id.
pub open spec fn carries(row: ChunkMetadata, dataset_id: u128, tracking_id: Seq<char>) -> bool {
    row.dataset_id == dataset_id && row.tracking_text() == Some(tracking_id)
}

/// Whether row `j` of lookup `i` is of the dataset and carries the tracking
/// id.
pub open spec fn found_at(
    lookups: Seq<Option<Vec<ChunkMetadata>>>,
    dataset_id: u128,
    tracking_id: Seq<char>,
    i: int,
    j: int,
) -> bool {
    &&& 0 <= i < lookups.len()
    &&& lookups[i] matches Some(rows)
    &&& 0 <= j < rows@.len()
    &&& carries(rows@[j], dataset_id, tracking_id)
}

/// Whether the bulk upload goes on with the message: it carries no tracking
/// id, or none that a lookup found stored in the message's dataset.
pub open spec fn survives(lookups: Seq<Option<Vec<ChunkMetadata>>>) -> spec_fn(
    IngestionMessage,
) -> bool {
    |m: IngestionMessage|
        match m.chunk_metadata.tracking_text() {
            Some(t) => !is_stored(lookups, m.dataset_id, t),
            None => true,
        }
}

/// Rows of other datasets drop nothing: a message goes on when no answer
/// holds a row of its own dataset, whatever tracking ids the rows carry.
pub proof fn lemma_other_datasets_drop_nothing(
    lookups: Seq<Option<Vec<ChunkMetadata>>>,
    m: IngestionMessage,
)
    requires
        forall|i: int, j: int|
            0 <= i < lookups.len() && lookups[i] is Some && 0 <= j < lookups[i]->0@.len() ==> (
            #[trigger] lookups[i]->0@[j]).dataset_id != m.dataset_id,
    ensures
        survives(lookups)(m),
{
}

/// A question that failed drops nothing: with no answer at all every
/// message goes on.
pub proof fn lemma_failed_lookups_drop_nothing(
    lookups: Seq<Option<Vec<ChunkMetadata>>>,
    m: IngestionMessage,
)
    requires
        forall|i: int| 0 <= i < lookups.len() ==> lookups[i] is None,
    ensures
        survives(lookups)(m),
{
}

/// A message is dropped when an answer holds a row of its dataset with its
/// tracking id.
pub proof fn lemma_stored_tracking_id_drops(
    lookups: Seq<Option<Vec<ChunkMetadata>>>,
    m: IngestionMessage,
    i: int,
    j: int,
)
    requires
        0 <= i < lookups.len(),
        lookups[i] is Some,
        0 <= j < lookups[i]->0@.len(),
        lookups[i]->0@[j].dataset_id == m.dataset_id,
        m.chunk_metadata.tracking_id is Some,
        lookups[i]->0@[j].tracking_text() == m.chunk_metadata.tracking_text(),
    ensures
        !survives(lookups)(m),
{
    assert(found_at(lookups, m.dataset_id, m.chunk_metadata.tracking_text()->0, i, j));
}

fn row_matches(rows: &Vec<ChunkMetadata>, dataset_id: u128, tracking_id: &String) -> (found: bool)
    ensures
        found == exists|j: int|
            0 <= j < rows@.len() && carries(#[trigger] rows@[j], dataset_id, tracking_id@),
{
    let mut j: usize = 0;
    while j < rows.len()
        invariant
            j <= rows.len(),
            forall|k: int| 0 <= k < j ==> !carries(#[trigger] rows@[k], dataset_id, tracking_id@),
        decreases rows.len() - j,
    {
        if rows[j].dataset_id == dataset_id {
            match &rows[j].tracking_id {
                Some(t) => {
                    if *t == *tracking_id {
                        return true;
                    }
                },
                None => {},
            }
        }
        j += 1;
    }
    false
}

fn stored(lookups: &Vec<Option<Vec<ChunkMetadata>>>, dataset_id: u128, tracking_id: &String) -> (found:
    bool)
    ensures
        found == is_stored(lookups@, dataset_id, tracking_id@),
{
    let mut i: usize = 0;
    while i < lookups.len()
        invariant
            i <= lookups.len(),
            forall|a: int, b: int|
                0 <= a < i ==> !found_at(lookups@, dataset_id, tracking_id@, a, b),
        decreases lookups.len() - i,
    {
        match &lookups[i] {
            Some(rows) => {
                if row_matches(rows, dataset_id, tracking_id) {
                    proof {
                        let j = choose|j: int|
                            0 <= j < rows@.len() && carries(
                                #[trigger] rows@[j],
                                dataset_id,
                                tracking_id@,
                            );
                        assert(found_at(lookups@, dataset_id, tracking_id@, i as int, j));
                    }
                    return true;
                }
            },
            None => {},
        }
        i += 1;
    }
    false
}

/// Drops the messages whose tracking id is stored already in their dataset.
///
/// `lookups` holds the answers of the metadata store to the questions for the
/// tracking ids of the batch, one per dataset, nothing where a question
/// failed. A message is dropped exactly when it carries a tracking id that a
/// row of its own dataset carries in one of the answers; the others are kept
/// in arrival order. A failed question drops nothing, and a row of another
/// dataset drops nothing.
pub fn drop_tracked(batch: Vec<IngestionMessage>, lookups: &Vec<Option<Vec<ChunkMetadata>>>) -> (kept:
    Vec<IngestionMessage>)
    ensures
        kept@ == batch@.filter(survives(lookups@)),
{
    let mut kept: Vec<IngestionMessage> = Vec::new();
    let ghost keep = survives(lookups@);
    let ghost mut seen: Seq<IngestionMessage> = Seq::empty();
    proof {
        reveal(Seq::filter);
    }
    for message in it: batch
        invariant
            it.seq() == batch@,
            seen == batch@.take(it.index() as int),
            kept@ == seen.filter(keep),
            keep == survives(lookups@),
    {
        proof {
            let next = batch@.take(it.index() + 1);
            assert(next.drop_last() == seen);
            assert(next.last() == message);
            reveal(Seq::filter);
            seen = next;
        }
        let drop = match &message.chunk_metadata.tracking_id {
            Some(t) => stored(lookups, message.dataset_id, t),
            None => false,
        };
        if !drop {
            kept.push(message);
        }
    }
    proof {
        assert(batch@.take(batch@.len() as int) == batch@);
    }
    kept
}

/// Whether the message `i` of a batch was embedded: an embedding was handed
/// in for it.
pub open spec fn embedded(embeddings: Seq<Option<Vec<u32>>>, i: int) -> bool {
    0 <= i < embeddings.len() && embeddings[i] is Some
}

/// The positions of the messages that were embedded, in arrival order.
pub open spec fn embedded_positions(count: nat, embeddings: Seq<Option<Vec<u32>>>) -> Seq<int>
    decreases count,
{
    if count == 0 {
        Seq::empty()
    } else {
        let before = embedded_positions((count - 1) as nat, embeddings);
        if embedded(embeddings, count - 1) {
            before.push(count - 1)
        } else {
            before
        }
    }
}

/// Whether `item` is what is written for `message` with the embedding
/// `vector`: a point with the vector, and the message's row, which names
/// that point. The point is the one the message names; where it names none,
/// a random one.
pub open spec fn item_of(item: BulkItem, message: IngestionMessage, vector: Seq<u32>) -> bool {
    &&& item.metadata == (ChunkMetadata {
        qdrant_point_id: Some(item.point_id),
        ..message.chunk_metadata
    })
    &&& item.vector@ == vector
    &&& item.dataset_id == message.dataset_id
    &&& item.config == message.dataset_config
    &&& match message.chunk_metadata.qdrant_point_id {
        Some(p) => item.point_id == p,
        None => is_random_layout(item.point_id),
    }
}

/// Whether the items are what is written for the batch: one item for each
/// message that was embedded, in arrival order.
pub open spec fn items_cover(
    items: Seq<BulkItem>,
    batch: Seq<IngestionMessage>,
    embeddings: Seq<Option<Vec<u32>>>,
) -> bool {
    let positions = embedded_positions(batch.len(), embeddings);
    &&& items.len() == positions.len()
    &&& forall|k: int|
        0 <= k < items.len() ==> item_of(
            #[trigger] items[k],
            batch[positions[k]],
            embeddings[positions[k]]->0@,
        )
}

/// The positions of the embedded messages are positions of the batch, and
/// each was embedded.
pub proof fn lemma_positions_are_embedded(count: nat, embeddings: Seq<Option<Vec<u32>>>, k: int)
    requires
        0 <= k < embedded_positions(count, embeddings).len(),
    ensures
        0 <= embedded_positions(count, embeddings)[k] < count,
        embedded(embeddings, embedded_positions(count, embeddings)[k]),
    decreases count,
{
    if count > 0 {
        let before = embedded_positions((count - 1) as nat, embeddings);
        if k < before.len() {
            lemma_positions_are_embedded((count - 1) as nat, embeddings, k);
        }
    }
}

/// Builds what the bulk upload writes.
///
/// `embeddings` holds the answer of the embedding service for each message
/// of the batch, by position, nothing where it failed. A message without an
/// embedding is left out, row and point alike. For each of the others there
/// is one item, in arrival order. Its point is the one the message names,
/// and a random one where it names none; its row names that point.
pub fn assemble(batch: Vec<IngestionMessage>, embeddings: &Vec<Option<Vec<u32>>>) -> (items: Vec<
    BulkItem,
>)
    ensures
        items_cover(items@, batch@, embeddings@),
{
    let mut items: Vec<BulkItem> = Vec::new();
    let total: usize = batch.len();
    let mut i: usize = 0;
    for message in it: batch
        invariant
            it.seq() == batch@,
            total == batch@.len(),
            i == it.index(),
            items_cover(items@, batch@.take(i as int), embeddings@),
    {
        let ghost before = items@;
        let ghost positions = embedded_positions(i as nat, embeddings@);
        proof {
            assert(batch@.take(i + 1).len() == i + 1);
            assert(batch@.take(i as int).len() == i);
            assert forall|k: int| 0 <= k < before.len() implies item_of(
                #[trigger] before[k],
                batch@.take(i + 1)[positions[k]],
                embeddings@[positions[k]]->0@,
            ) by {
                lemma_positions_are_embedded(i as nat, embeddings@, k);
                assert(batch@.take(i + 1)[positions[k]] == batch@.take(i as int)[positions[k]]);
            }
        }
        if i < embeddings.len() {
            match &embeddings[i] {
                Some(vector) => {
                    let point_id = match message.chunk_metadata.qdrant_point_id {
                        Some(p) => p,
                        None => random_id(),
                    };
                    let mut metadata = message.chunk_metadata;
                    metadata.qdrant_point_id = Some(point_id);
                    items.push(
                        BulkItem {
                            metadata,
                            point_id,
                            vector: copy_vector(vector),
                            dataset_id: message.dataset_id,
                            config: message.dataset_config,
                        },
                    );
                    proof {
                        assert(batch@.take(i + 1)[i as int] == message);
                        assert forall|k: int| 0 <= k < items.len() implies item_of(
                            #[trigger] items@[k],
                            batch@.take(i + 1)[positions.push(i as int)[k]],
                            embeddings@[positions.push(i as int)[k]]->0@,
                        ) by {
                            if k < before.len() {
                                assert(items@[k] == before[k]);
                            }
                        }
                    }
                },
                None => {},
            }
        }
        i += 1;
    }
    proof {
        assert(batch@.take(batch@.len() as int) == batch@);
    }
    items
}

} // verus!
