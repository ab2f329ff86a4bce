//! Coarse splitting of long texts, and the shape rule of averaging.

use vstd::prelude::*;
use crate::text::texts;
use crate::vectors::contents;

verus! {

/// The number of characters of a sub-text when the upload splits a content.
pub const SUB_TEXT_CHARS: usize = 4000;

/// The pieces of `text`: consecutive runs of `limit` characters, the last
/// one possibly shorter. An empty text, or a limit of zero, has no pieces.
pub open spec fn pieces(text: Seq<char>, limit: nat) -> Seq<Seq<char>>
    decreases text.len(),
{
    if text.len() == 0 || limit == 0 {
        Seq::empty()
    } else if text.len() <= limit {
        seq![text]
    } else {
        seq![text.take(limit as int)] + pieces(text.skip(limit as int), limit)
    }
}

/// The pieces, joined in order, give the text back: they are disjoint and
/// cover it.
pub proof fn lemma_pieces_cover(text: Seq<char>, limit: nat)
    requires
        limit > 0,
    ensures
        pieces(text, limit).flatten() == text,
    decreases text.len(),
{
    if text.len() == 0 {
        assert(pieces(text, limit).flatten() =~= text);
    } else if text.len() <= limit {
        assert(seq![text].flatten() =~= text) by {
            assert(seq![text].drop_first() =~= Seq::<Seq<char>>::empty());
            assert(seq![text].first() == text);
            reveal_with_fuel(Seq::flatten, 2);
        }
    } else {
        let head = text.take(limit as int);
        let tail = text.skip(limit as int);
        lemma_pieces_cover(tail, limit);
        let all = seq![head] + pieces(tail, limit);
        assert(all.first() == head);
        assert(all.drop_first() =~= pieces(tail, limit));
        assert(all.flatten() == head + pieces(tail, limit).flatten());
        assert(head + tail =~= text);
    }
}

/// Every piece is non-empty and at most `limit` characters long.
pub proof fn lemma_pieces_are_bounded(text: Seq<char>, limit: nat, i: int)
    requires
        0 <= i < pieces(text, limit).len(),
    ensures
        0 < pieces(text, limit)[i].len() <= limit,
    decreases text.len(),
{
    if text.len() == 0 || limit == 0 {
    } else if text.len() <= limit {
    } else {
        if i > 0 {
            lemma_pieces_are_bounded(text.skip(limit as int), limit, i - 1);
        }
    }
}

/// A text longer than the limit has at least two pieces.
pub proof fn lemma_long_text_has_several_pieces(text: Seq<char>, limit: nat)
    requires
        0 < limit < text.len(),
    ensures
        pieces(text, limit).len() >= 2,
{
    let tail = text.skip(limit as int);
    assert(tail.len() > 0);
    assert(pieces(tail, limit).len() >= 1) by {
        if tail.len() <= limit {
        } else {
        }
    }
}

/// Splits `text` into consecutive sub-texts of at most `limit` characters.
///
/// The sub-texts are [`pieces`] of the text: disjoint, in order, covering
/// it, each non-empty and none longer than `limit`.
pub fn coarse_split(text: &str, limit: usize) -> (parts: Vec<String>)
    ensures
        texts(parts@) == pieces(text@, limit as nat),
{
    let mut parts: Vec<String> = Vec::new();
    if limit == 0 {
        assert(texts(parts@) =~= pieces(text@, limit as nat));
        return parts;
    }
    let total: usize = text.unicode_len();
    let mut start: usize = 0;
    proof {
        assert(text@.skip(0) =~= text@);
        assert(texts(parts@) + pieces(text@, limit as nat) =~= pieces(text@, limit as nat));
    }
    while start < total
        invariant
            limit > 0,
            total == text@.len(),
            start <= total,
            texts(parts@) + pieces(text@.skip(start as int), limit as nat) == pieces(
                text@,
                limit as nat,
            ),
        decreases total - start,
    {
        let end: usize = if total - start <= limit {
            total
        } else {
            start + limit
        };
        let piece = text.substring_char(start, end);
        let ghost before = texts(parts@);
        let ghost rest = text@.skip(start as int);
        parts.push(String::from_str(piece));
        proof {
            assert(texts(parts@) =~= before.push(piece@));
            if total - start <= limit {
                assert(piece@ =~= rest);
                assert(text@.skip(end as int).len() == 0);
                assert(pieces(rest, limit as nat) =~= seq![rest]);
                assert(pieces(text@.skip(end as int), limit as nat) =~= Seq::empty());
                assert(texts(parts@) + pieces(text@.skip(end as int), limit as nat) =~= before
                    + pieces(rest, limit as nat));
            } else {
                assert(piece@ =~= rest.take(limit as int));
                assert(rest.skip(limit as int) =~= text@.skip(end as int));
                assert(texts(parts@) + pieces(text@.skip(end as int), limit as nat) =~= before
                    + pieces(rest, limit as nat));
            }
        }
        start = end;
    }
    proof {
        assert(text@.skip(start as int).len() == 0);
        assert(texts(parts@) + pieces(text@.skip(start as int), limit as nat) =~= texts(parts@));
    }
    parts
}

/// Why a list of vectors has no mean.
#[derive(Debug, PartialEq, Eq, Structural, Clone, Copy)]
pub enum AverageError {
    /// The list is empty.
    NoVectors,
    /// Two vectors differ in length.
    ShapeMismatch,
}

/// The length that all vectors share; an error when the list is empty or
/// two of its vectors differ in length.
pub open spec fn common_dimension(vectors: Seq<Seq<u32>>) -> Result<nat, AverageError> {
    if vectors.len() == 0 {
        Err(AverageError::NoVectors)
    } else if forall|i: int| 0 <= i < vectors.len() ==> (#[trigger] vectors[i]).len()
        == vectors[0].len() {
        Ok(vectors[0].len())
    } else {
        Err(AverageError::ShapeMismatch)
    }
}

/// Decides whether a list of vectors can be averaged, and the length of the
/// mean: the list must be non-empty and all its vectors of one length.
pub fn averaging_dimension(vectors: &Vec<Vec<u32>>) -> (dimension: Result<usize, AverageError>)
    ensures
        match dimension {
            Ok(d) => common_dimension(contents(vectors@)) == Ok::<nat, AverageError>(d as nat),
            Err(e) => common_dimension(contents(vectors@)) == Err::<nat, AverageError>(e),
        },
{
    if vectors.len() == 0 {
        return Err(AverageError::NoVectors);
    }
    let expected: usize = vectors[0].len();
    let mut i: usize = 1;
    while i < vectors.len()
        invariant
            1 <= i <= vectors.len(),
            expected == vectors@[0]@.len(),
            forall|j: int| 0 <= j < i ==> (#[trigger] contents(vectors@)[j]).len() == expected,
        decreases vectors.len() - i,
    {
        if vectors[i].len() != expected {
            assert(contents(vectors@)[i as int].len() != contents(vectors@)[0].len());
            return Err(AverageError::ShapeMismatch);
        }
        i += 1;
    }
    Ok(expected)
}

/// Two lists with the same elements, each as often, have the same members.
proof fn lemma_same_members(a: Seq<Seq<u32>>, b: Seq<Seq<u32>>, x: Seq<u32>)
    requires
        a.to_multiset() == b.to_multiset(),
        a.contains(x),
    ensures
        b.contains(x),
{
    a.to_multiset_ensures();
    b.to_multiset_ensures();
    assert(a.to_multiset().count(x) > 0);
    assert(b.to_multiset().count(x) > 0);
}

/// Whether a list of vectors can be averaged, and the length of the mean, do
/// not depend on the order of the list.
pub proof fn lemma_dimension_ignores_order(a: Seq<Seq<u32>>, b: Seq<Seq<u32>>)
    requires
        a.to_multiset() == b.to_multiset(),
    ensures
        common_dimension(a) == common_dimension(b),
{
    a.to_multiset_ensures();
    b.to_multiset_ensures();
    if a.len() > 0 {
        assert(a.contains(a[0]));
        assert(b.contains(b[0]));
        lemma_same_members(a, b, a[0]);
        lemma_same_members(b, a, b[0]);
        let uniform_a = forall|i: int| 0 <= i < a.len() ==> (#[trigger] a[i]).len() == a[0].len();
        let uniform_b = forall|i: int| 0 <= i < b.len() ==> (#[trigger] b[i]).len() == b[0].len();
        if uniform_a {
            assert forall|i: int| 0 <= i < b.len() implies (#[trigger] b[i]).len()
                == b[0].len() by {
                assert(b.contains(b[i]));
                lemma_same_members(b, a, b[i]);
            }
        }
        if uniform_b {
            assert forall|i: int| 0 <= i < a.len() implies (#[trigger] a[i]).len()
                == a[0].len() by {
                assert(a.contains(a[i]));
                lemma_same_members(a, b, a[i]);
            }
        }
    }
}

} // verus!
