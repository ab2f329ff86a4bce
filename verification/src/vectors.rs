//! Embedding vectors: lists of single-precision bit patterns.

use vstd::prelude::*;

verus! {

/// The contents of a list of vectors.
pub open spec fn contents(vectors: Seq<Vec<u32>>) -> Seq<Seq<u32>> {
    Seq::new(vectors.len(), |i: int| vectors[i]@)
}

/// Copies a vector.
pub fn copy_vector(vector: &Vec<u32>) -> (copy: Vec<u32>)
    ensures
        copy@ == vector@,
{
    let mut copy: Vec<u32> = Vec::new();
    let mut i: usize = 0;
    while i < vector.len()
        invariant
            i <= vector.len(),
            copy@ == vector@.take(i as int),
        decreases vector.len() - i,
    {
        copy.push(vector[i]);
        assert(copy@ =~= vector@.take(i + 1));
        i += 1;
    }
    assert(vector@.take(vector@.len() as int) =~= vector@);
    copy
}

} // verus!
