//! Partition of a decoded batch into the single-item and the bulk set.

use vstd::prelude::*;
use crate::model::IngestionMessage;

verus! {

/// The two sets a batch is split into.
#[derive(Debug, Clone, PartialEq, Eq)]
pub struct Classified {
    /// Messages for the single-item pipeline, in arrival order.
    pub single: Vec<IngestionMessage>,
    /// Messages for the bulk pipeline, in arrival order.
    pub bulk: Vec<IngestionMessage>,
}

/// Whether some message of `set` has the chunk id `id`.
pub open spec fn holds_id(set: Seq<IngestionMessage>, id: u128) -> bool {
    exists|j: int| 0 <= j < set.len() && (#[trigger] set[j]).chunk_metadata.id == id
}

/// The single-item set of a batch: the messages that the rule selects.
pub open spec fn single_set(batch: Seq<IngestionMessage>) -> Seq<IngestionMessage> {
    batch.filter(|m: IngestionMessage| m.takes_single_path())
}

/// The bulk set of a batch: the messages whose chunk id no message of the
/// single-item set carries.
pub open spec fn bulk_set(batch: Seq<IngestionMessage>) -> Seq<IngestionMessage> {
    batch.filter(|m: IngestionMessage| !holds_id(single_set(batch), m.chunk_metadata.id))
}

/// A chunk id is in the single-item set exactly when a selected message of
/// the batch carries it.
pub proof fn lemma_single_ids(batch: Seq<IngestionMessage>, id: u128)
    ensures
        holds_id(single_set(batch), id) <==> exists|j: int|
            0 <= j < batch.len() && (#[trigger] batch[j]).takes_single_path()
                && batch[j].chunk_metadata.id == id,
{
    let pred = |m: IngestionMessage| m.takes_single_path();
    let set = single_set(batch);
    broadcast use vstd::seq_lib::group_filter_ensures;
    if holds_id(set, id) {
        let j = choose|j: int| 0 <= j < set.len() && (#[trigger] set[j]).chunk_metadata.id == id;
        batch.lemma_filter_contains_rev(pred, set[j]);
        let k = choose|k: int| 0 <= k < batch.len() && batch[k] == set[j];
        assert(batch[k].takes_single_path() && batch[k].chunk_metadata.id == id);
    }
    if exists|j: int|
        0 <= j < batch.len() && (#[trigger] batch[j]).takes_single_path()
            && batch[j].chunk_metadata.id == id {
        let j = choose|j: int|
            0 <= j < batch.len() && (#[trigger] batch[j]).takes_single_path()
                && batch[j].chunk_metadata.id == id;
        assert(set.contains(batch[j]));
        let k = choose|k: int| 0 <= k < set.len() && set[k] == batch[j];
        assert(set[k].chunk_metadata.id == id);
    }
}

/// Selecting by a predicate and by its complement splits a sequence: every
/// element lands in exactly one of the two selections, as often as it occurs.
proof fn lemma_filter_splits<A>(s: Seq<A>, keep: spec_fn(A) -> bool, rest: spec_fn(A) -> bool)
    requires
        forall|i: int| 0 <= i < s.len() ==> keep(#[trigger] s[i]) != rest(s[i]),
    ensures
        s.filter(keep).to_multiset().add(s.filter(rest).to_multiset()) == s.to_multiset(),
    decreases s.len(),
{
    reveal(Seq::filter);
    if s.len() == 0 {
        s.to_multiset_ensures();
        assert forall|a: A| s.to_multiset().count(a) == 0 by {
            assert(!s.contains(a));
        }
        assert(s.filter(keep).to_multiset().add(s.filter(rest).to_multiset()) =~= s.to_multiset());
    } else {
        let front = s.drop_last();
        let x = s.last();
        assert forall|i: int| 0 <= i < front.len() implies keep(#[trigger] front[i]) != rest(
            front[i],
        ) by {
            assert(front[i] == s[i]);
        }
        lemma_filter_splits(front, keep, rest);
        assert(s == front.push(x));
        front.to_multiset_ensures();
        front.filter(keep).to_multiset_ensures();
        front.filter(rest).to_multiset_ensures();
        assert(keep(s[s.len() - 1]) != rest(s[s.len() - 1]));
        assert(s.filter(keep).to_multiset().add(s.filter(rest).to_multiset()) =~= s.to_multiset());
    }
}

/// The two sets are disjoint by chunk id: no id occurs in both.
pub proof fn lemma_sets_are_disjoint(batch: Seq<IngestionMessage>, id: u128)
    ensures
        !(holds_id(single_set(batch), id) && holds_id(bulk_set(batch), id)),
{
    broadcast use vstd::seq_lib::group_filter_ensures;
    let set = bulk_set(batch);
    if holds_id(set, id) {
        let j = choose|j: int| 0 <= j < set.len() && (#[trigger] set[j]).chunk_metadata.id == id;
        let keep = |m: IngestionMessage| !holds_id(single_set(batch), m.chunk_metadata.id);
        assert(keep(set[j]));
    }
}

/// Whether no message outside the single-item rule shares its chunk id with
/// a message that the rule selects. Batches with pairwise distinct chunk ids
/// are of this kind.
pub open spec fn ids_separate_paths(batch: Seq<IngestionMessage>) -> bool {
    forall|i: int, j: int|
        0 <= i < batch.len() && 0 <= j < batch.len() && !(#[trigger] batch[i]).takes_single_path()
            && (#[trigger] batch[j]).takes_single_path() ==> batch[i].chunk_metadata.id
            != batch[j].chunk_metadata.id
}

/// Classification is total: when chunk ids separate the two paths, every
/// message of the batch lands in exactly one of the two sets, as often as it
/// occurs in the batch.
pub proof fn lemma_classification_is_a_partition(batch: Seq<IngestionMessage>)
    requires
        ids_separate_paths(batch),
    ensures
        single_set(batch).to_multiset().add(bulk_set(batch).to_multiset()) == batch.to_multiset(),
{
    let keep = |m: IngestionMessage| m.takes_single_path();
    let rest = |m: IngestionMessage| !holds_id(single_set(batch), m.chunk_metadata.id);
    assert forall|i: int| 0 <= i < batch.len() implies keep(#[trigger] batch[i]) != rest(
        batch[i],
    ) by {
        lemma_single_ids(batch, batch[i].chunk_metadata.id);
    }
    lemma_filter_splits(batch, keep, rest);
}

/// A batch whose chunk ids are pairwise distinct separates the two paths.
pub proof fn lemma_distinct_ids_separate_paths(batch: Seq<IngestionMessage>)
    requires
        forall|i: int, j: int|
            0 <= i < j < batch.len() ==> (#[trigger] batch[i]).chunk_metadata.id != (
            #[trigger] batch[j]).chunk_metadata.id,
    ensures
        ids_separate_paths(batch),
{
    assert forall|i: int, j: int|
        0 <= i < batch.len() && 0 <= j < batch.len() && !(#[trigger] batch[i]).takes_single_path()
            && (#[trigger] batch[j]).takes_single_path() implies batch[i].chunk_metadata.id
        != batch[j].chunk_metadata.id by {
        if i < j {
        } else if j < i {
        }
    }
}

fn single_ids(batch: &Vec<IngestionMessage>) -> (ids: Vec<u128>)
    ensures
        forall|id: u128| ids@.contains(id) <==> holds_id(single_set(batch@), id),
{
    let mut ids: Vec<u128> = Vec::new();
    let mut i: usize = 0;
    while i < batch.len()
        invariant
            i <= batch.len(),
            forall|id: u128|
                ids@.contains(id) <==> exists|j: int|
                    0 <= j < i && (#[trigger] batch@[j]).takes_single_path()
                        && batch@[j].chunk_metadata.id == id,
        decreases batch.len() - i,
    {
        if batch[i].is_single_upload() {
            let ghost before = ids@;
            ids.push(batch[i].chunk_metadata.id);
            proof {
                assert forall|id: u128|
                    ids@.contains(id) <==> exists|j: int|
                        0 <= j < i + 1 && (#[trigger] batch@[j]).takes_single_path()
                            && batch@[j].chunk_metadata.id == id by {
                    if ids@.contains(id) {
                        let k = choose|k: int| 0 <= k < ids@.len() && ids@[k] == id;
                        if k < before.len() {
                            assert(before.contains(id));
                        } else {
                            assert(batch@[i as int].takes_single_path());
                        }
                    }
                    if exists|j: int|
                        0 <= j < i + 1 && (#[trigger] batch@[j]).takes_single_path()
                            && batch@[j].chunk_metadata.id == id {
                        let j = choose|j: int|
                            0 <= j < i + 1 && (#[trigger] batch@[j]).takes_single_path()
                                && batch@[j].chunk_metadata.id == id;
                        if j < i {
                            assert(before.contains(id));
                            let k = choose|k: int| 0 <= k < before.len() && before[k] == id;
                            assert(ids@[k] == id);
                        } else {
                            assert(ids@[before.len() as int] == id);
                        }
                    }
                }
            }
        }
        i += 1;
    }
    proof {
        assert forall|id: u128| ids@.contains(id) <==> holds_id(single_set(batch@), id) by {
            lemma_single_ids(batch@, id);
        }
    }
    ids
}

fn contains_id(ids: &Vec<u128>, id: u128) -> (found: bool)
    ensures
        found == ids@.contains(id),
{
    let mut i: usize = 0;
    while i < ids.len()
        invariant
            i <= ids.len(),
            forall|j: int| 0 <= j < i ==> ids@[j] != id,
        decreases ids.len() - i,
    {
        if ids[i] == id {
            return true;
        }
        i += 1;
    }
    false
}

/// Splits a batch into the single-item and the bulk set.
///
/// A message joins the single-item set exactly when
/// [`IngestionMessage::takes_single_path`] holds of it. A message joins the
/// bulk set exactly when no message of the single-item set carries its chunk
/// id. Both sets keep the arrival order.
pub fn classify(batch: Vec<IngestionMessage>) -> (sets: Classified)
    ensures
        sets.single@ == single_set(batch@),
        sets.bulk@ == bulk_set(batch@),
{
    let ids = single_ids(&batch);
    let ghost keep_single = |m: IngestionMessage| m.takes_single_path();
    let ghost keep_bulk = |m: IngestionMessage| !holds_id(single_set(batch@), m.chunk_metadata.id);
    let mut single: Vec<IngestionMessage> = Vec::new();
    let mut bulk: Vec<IngestionMessage> = Vec::new();
    let ghost mut seen: Seq<IngestionMessage> = Seq::empty();
    proof {
        reveal(Seq::filter);
    }
    for message in it: batch
        invariant
            it.seq() == batch@,
            seen == batch@.take(it.index() as int),
            single@ == seen.filter(keep_single),
            bulk@ == seen.filter(keep_bulk),
            keep_single == |m: IngestionMessage| m.takes_single_path(),
            keep_bulk == |m: IngestionMessage| !holds_id(single_set(batch@), m.chunk_metadata.id),
            forall|id: u128| ids@.contains(id) <==> holds_id(single_set(batch@), id),
    {
        proof {
            let next = batch@.take(it.index() + 1);
            assert(next.drop_last() == seen);
            assert(next.last() == message);
            reveal(Seq::filter);
            seen = next;
            lemma_single_ids(batch@, message.chunk_metadata.id);
            assert(batch@[it.index() as int] == message);
        }
        if message.is_single_upload() {
            single.push(message);
        } else if !contains_id(&ids, message.chunk_metadata.id) {
            bulk.push(message);
        }
    }
    proof {
        assert(batch@.take(batch@.len() as int) == batch@);
    }
    Classified { single, bulk }
}

} // verus!
