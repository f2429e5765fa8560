//! Shape checks of the keyless taste ranker. The ranker learns a direction
//! from liked and disliked embeddings (Rocchio relevance feedback) and scores
//! candidates by cosine similarity; the vector arithmetic happens outside
//! this library, which decides when a set of examples is usable at all.

use vstd::prelude::*;

verus! {

/// The shared length of a set of vectors with these lengths: present only
/// when there is at least one vector, every vector has the same length, and
/// that length is not zero. A NULL embedding arrives as an empty vector and
/// must not bias a learned direction, so any mismatch fails closed.
pub open spec fn common_dimension_of(lengths: Seq<usize>) -> Option<usize> {
    if lengths.len() > 0 && lengths[0] > 0 && forall|i: int|
        0 <= i < lengths.len() ==> #[trigger] lengths[i] == lengths[0] {
        Some(lengths[0])
    } else {
        None
    }
}

/// The dimension the mean of vectors with these lengths has, or `None` when
/// the mean is undefined.
pub fn common_dimension(lengths: &Vec<usize>) -> (d: Option<usize>)
    ensures
        d == common_dimension_of(lengths@),
        d is Some <==> (lengths@.len() > 0 && lengths@[0] > 0 && forall|i: int|
            0 <= i < lengths@.len() ==> #[trigger] lengths@[i] == lengths@[0]),
        d matches Some(dims) ==> dims == lengths@[0],
{
    if lengths.len() == 0 {
        return None;
    }
    let dims = lengths[0];
    if dims == 0 {
        return None;
    }
    let mut i: usize = 1;
    while i < lengths.len()
        invariant
            1 <= i <= lengths@.len(),
            dims == lengths@[0],
            forall|k: int| 0 <= k < i ==> #[trigger] lengths@[k] == dims,
        decreases lengths@.len() - i,
    {
        if lengths[i] != dims {
            return None;
        }
        i = i + 1;
    }
    Some(dims)
}

/// Vectors that share one non-zero length `d` (a single vector among them)
/// have common dimension `d`; the common dimension is absent exactly for no
/// vectors, a zero length, or two vectors of different lengths.
pub proof fn lemma_common_dimension_characterized(lengths: Seq<usize>, d: usize)
    ensures
        lengths.len() > 0 && d > 0 && (forall|i: int| 0 <= i < lengths.len() ==> #[trigger] lengths[i] == d)
            ==> common_dimension_of(lengths) == Some(d),
        common_dimension_of(lengths) is None <==> (lengths.len() == 0 || (exists|i: int|
            0 <= i < lengths.len() && #[trigger] lengths[i] == 0) || (exists|i: int, j: int|
            0 <= i < lengths.len() && 0 <= j < lengths.len() && #[trigger] lengths[i]
                != #[trigger] lengths[j])),
        d > 0 ==> common_dimension_of(seq![d]) == Some(d),
{
    if lengths.len() > 0 && d > 0 && (forall|i: int| 0 <= i < lengths.len() ==> #[trigger] lengths[i] == d) {
        assert(lengths[0] == d);
    }
    if common_dimension_of(lengths) is None && lengths.len() > 0 {
        if lengths[0] == 0 {
            assert(exists|i: int| 0 <= i < lengths.len() && lengths[i] == 0);
        } else {
            let i = choose|i: int| 0 <= i < lengths.len() && #[trigger] lengths[i] != lengths[0];
            assert(0 <= i < lengths.len() && 0 <= 0 < lengths.len() && lengths[i] != lengths[0]);
        }
    }
    assert(seq![d][0] == d);
}

} // verus!
