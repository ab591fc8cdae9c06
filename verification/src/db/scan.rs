//! Finding the first row of a table that meets a condition.

use vstd::prelude::*;

verus! {

/// The index of the first element of `rows` for which `wanted` holds.
pub open spec fn first_index<T>(rows: Seq<T>, wanted: spec_fn(T) -> bool) -> Option<int>
    decreases rows.len(),
{
    if rows.len() == 0 {
        None
    } else {
        match first_index(rows.drop_last(), wanted) {
            Some(i) => Some(i),
            None => if wanted(rows.last()) {
                Some(rows.len() - 1)
            } else {
                None
            },
        }
    }
}

/// `first_index` gives an element that is wanted and has none wanted before
/// it, and gives nothing only where no element is wanted.
pub proof fn lemma_first_index<T>(rows: Seq<T>, wanted: spec_fn(T) -> bool)
    ensures
        match first_index(rows, wanted) {
            Some(i) => 0 <= i < rows.len() && wanted(rows[i]) && forall|k: int|
                0 <= k < i ==> !wanted(rows[k]),
            None => forall|k: int| 0 <= k < rows.len() ==> !wanted(rows[k]),
        },
    decreases rows.len(),
{
    if rows.len() > 0 {
        let front = rows.drop_last();
        lemma_first_index(front, wanted);
        assert(forall|k: int| 0 <= k < front.len() ==> front[k] == rows[k]);
        match first_index(front, wanted) {
            Some(i) => {
                assert(front[i] == rows[i]);
            },
            None => {
                assert forall|k: int| 0 <= k < rows.len() - 1 implies !wanted(rows[k]) by {
                    assert(front[k] == rows[k]);
                }
            },
        }
    }
}

/// An element that is wanted and has none wanted before it is the one that
/// `first_index` gives.
pub proof fn lemma_first_index_is<T>(rows: Seq<T>, wanted: spec_fn(T) -> bool, i: int)
    requires
        0 <= i < rows.len(),
        wanted(rows[i]),
        forall|k: int| 0 <= k < i ==> !wanted(rows[k]),
    ensures
        first_index(rows, wanted) == Some(i),
{
    lemma_first_index(rows, wanted);
}

/// Where no element is wanted, `first_index` gives nothing.
pub proof fn lemma_first_index_none<T>(rows: Seq<T>, wanted: spec_fn(T) -> bool)
    requires
        forall|k: int| 0 <= k < rows.len() ==> !wanted(rows[k]),
    ensures
        first_index(rows, wanted) is None,
{
    lemma_first_index(rows, wanted);
}

/// A condition that no element meets picks nothing.
pub proof fn lemma_none_wanted<T>(rows: Seq<T>, wanted: spec_fn(T) -> bool)
    requires
        forall|i: int| 0 <= i < rows.len() ==> !wanted(#[trigger] rows[i]),
    ensures
        rows.filter(wanted).len() == 0,
    decreases rows.len(),
{
    reveal(Seq::filter);
    if rows.len() > 0 {
        let front = rows.drop_last();
        assert(forall|i: int| 0 <= i < front.len() ==> front[i] == rows[i]);
        lemma_none_wanted(front, wanted);
        assert(!wanted(rows[rows.len() - 1]));
    }
}

} // verus!
