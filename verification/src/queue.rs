//! What a worker does with the replies of the ingestion queue.
//!
//! A worker pops one payload with a blocking call and then up to a batch of
//! further payloads with a second call. The functions here merge the two
//! replies, keep what could be decoded, and fix the worker's settings.

use vstd::prelude::*;
use crate::text::texts;
use crate::model::IngestionMessage;

verus! {

/// The payloads that are asked for in one batch when nothing else is set.
pub const DEFAULT_BATCH: usize = 10;

/// The key of the ingestion queue.
pub open spec fn queue_key() -> Seq<char> {
    "ingestion"@
}

/// The key of the ingestion queue.
pub fn ingestion_queue() -> (key: &'static str)
    ensures
        key@ == queue_key(),
{
    "ingestion"
}

/// The batch of two replies: the payloads of the second reply, then the
/// payload of the blocking reply, which is its second element (the first is
/// the key of the queue). There is no batch unless both calls succeeded.
pub open spec fn merged(blocking: Option<Vec<String>>, batched: Option<Vec<String>>) -> Seq<
    Seq<char>,
> {
    match (blocking, batched) {
        (Some(reply), Some(more)) => if reply@.len() >= 2 {
            texts(more@).push(reply@[1]@)
        } else {
            texts(more@)
        },
        _ => Seq::empty(),
    }
}

/// Merges the replies of the blocking pop and of the batched pop into one
/// batch of payloads; a failed call is passed as nothing.
pub fn merge_batch(blocking: Option<Vec<String>>, batched: Option<Vec<String>>) -> (batch: Vec<
    String,
>)
    ensures
        texts(batch@) == merged(blocking, batched),
{
    match (blocking, batched) {
        (Some(reply), Some(more)) => {
            let mut batch = more;
            if reply.len() >= 2 {
                batch.push(reply[1].clone());
                assert(texts(batch@) =~= texts(more@).push(reply@[1]@));
            }
            batch
        },
        _ => {
            let batch: Vec<String> = Vec::new();
            assert(texts(batch@) =~= Seq::<Seq<char>>::empty());
            batch
        },
    }
}

/// The messages among the results of decoding, in order.
pub open spec fn decoded(results: Seq<Option<IngestionMessage>>) -> Seq<IngestionMessage> {
    results.filter_map(|r: Option<IngestionMessage>| r)
}

/// Keeps the payloads that could be decoded and drops the others.
pub fn keep_decoded(results: Vec<Option<IngestionMessage>>) -> (messages: Vec<IngestionMessage>)
    ensures
        messages@ == decoded(results@),
{
    let mut messages: Vec<IngestionMessage> = Vec::new();
    let ghost mut seen: Seq<Option<IngestionMessage>> = Seq::empty();
    for result in it: results
        invariant
            it.seq() == results@,
            seen == results@.take(it.index() as int),
            messages@ == decoded(seen),
    {
        proof {
            let next = results@.take(it.index() + 1);
            assert(next.drop_last() == seen);
            assert(next.last() == result);
            if result is Some {
                assert(decoded(seen) + seq![result->0] =~= decoded(seen).push(result->0));
            }
            seen = next;
        }
        match result {
            Some(message) => {
                messages.push(message);
            },
            None => {},
        }
    }
    proof {
        assert(results@.take(results@.len() as int) == results@);
    }
    messages
}

/// The number of payloads to ask for in one batch: the number that was set,
/// and the default of ten where none was set or it is zero.
pub fn batch_limit(requested: Option<usize>) -> (limit: usize)
    ensures
        limit >= 1,
        limit == match requested {
            Some(n) => if n >= 1 {
                n
            } else {
                DEFAULT_BATCH
            },
            None => DEFAULT_BATCH,
        },
{
    match requested {
        Some(n) => if n >= 1 {
            n
        } else {
            DEFAULT_BATCH
        },
        None => DEFAULT_BATCH,
    }
}

/// The number of workers: the number that was set, else twice the number of
/// threads the machine runs in parallel.
pub fn worker_count(requested: Option<usize>, parallelism: usize) -> (count: usize)
    requires
        requested is None ==> 2 * parallelism <= usize::MAX,
    ensures
        count == match requested {
            Some(n) => n as int,
            None => 2 * parallelism,
        },
{
    match requested {
        Some(n) => n,
        None => 2 * parallelism,
    }
}

} // verus!
