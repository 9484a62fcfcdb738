//! What holds of every collection whose handles were given back.
//!
//! The contracts of the extractors say what the slice is afterwards by
//! [`write_back`], [`write_back2`] and [`write_back3`]. The lemmas here draw
//! from that what a caller relies on: handles to different places do not
//! disturb one another, and nothing but the places handed out can change.

use vstd::prelude::*;

use crate::model::{in_bounds, pairwise_distinct, write_back, write_back2, write_back3};

verus! {

/// A value written through the one handle is the value read at its place,
/// the collection keeps its length, and every other element stays as it was.
pub proof fn lemma_write_back_reads<T>(before: Seq<T>, a0: int, v0: T)
    requires
        in_bounds(before.len(), a0),
    ensures
        write_back(before, a0, v0).len() == before.len(),
        write_back(before, a0, v0)[a0] == v0,
        forall|k: int|
            in_bounds(before.len(), k) && k != a0 ==> #[trigger] write_back(before, a0, v0)[k]
                == before[k],
{
}

/// With two handles to different places, the value written through each is
/// the value read at its place, whatever was written through the other; the
/// collection keeps its length, and every other element stays as it was.
pub proof fn lemma_write_back2_reads<T>(before: Seq<T>, a0: int, v0: T, a1: int, v1: T)
    requires
        a0 != a1,
        in_bounds(before.len(), a0),
        in_bounds(before.len(), a1),
    ensures
        write_back2(before, a0, v0, a1, v1).len() == before.len(),
        write_back2(before, a0, v0, a1, v1)[a0] == v0,
        write_back2(before, a0, v0, a1, v1)[a1] == v1,
        forall|k: int|
            in_bounds(before.len(), k) && k != a0 && k != a1 ==> #[trigger] write_back2(
                before,
                a0,
                v0,
                a1,
                v1,
            )[k] == before[k],
{
}

/// With three handles to pairwise different places, the value written
/// through each is the value read at its place, whatever was written through
/// the others; the collection keeps its length, and every other element stays
/// as it was.
pub proof fn lemma_write_back3_reads<T>(
    before: Seq<T>,
    a0: int,
    v0: T,
    a1: int,
    v1: T,
    a2: int,
    v2: T,
)
    requires
        pairwise_distinct(a0, a1, a2),
        in_bounds(before.len(), a0),
        in_bounds(before.len(), a1),
        in_bounds(before.len(), a2),
    ensures
        write_back3(before, a0, v0, a1, v1, a2, v2).len() == before.len(),
        write_back3(before, a0, v0, a1, v1, a2, v2)[a0] == v0,
        write_back3(before, a0, v0, a1, v1, a2, v2)[a1] == v1,
        write_back3(before, a0, v0, a1, v1, a2, v2)[a2] == v2,
        forall|k: int|
            in_bounds(before.len(), k) && k != a0 && k != a1 && k != a2
                ==> #[trigger] write_back3(before, a0, v0, a1, v1, a2, v2)[k] == before[k],
{
}

/// Handing out handles changes nothing by itself: the collection whose
/// handles all come back holding what they were handed out with is the
/// collection as it was.
pub proof fn lemma_write_back_nothing_written<T>(before: Seq<T>, a0: int, a1: int, a2: int)
    requires
        in_bounds(before.len(), a0),
        in_bounds(before.len(), a1),
        in_bounds(before.len(), a2),
    ensures
        write_back(before, a0, before[a0]) == before,
        write_back2(before, a0, before[a0], a1, before[a1]) == before,
        write_back3(before, a0, before[a0], a1, before[a1], a2, before[a2]) == before,
{
    assert(write_back(before, a0, before[a0]) =~= before);
    assert(write_back2(before, a0, before[a0], a1, before[a1]) =~= before);
    assert(write_back3(before, a0, before[a0], a1, before[a1], a2, before[a2]) =~= before);
}

/// A handle that nothing was written through leaves the collection as if it
/// had never been handed out: only the other handle's write is seen.
pub proof fn lemma_write_back2_untouched<T>(before: Seq<T>, a0: int, v0: T, a1: int)
    requires
        a0 != a1,
        in_bounds(before.len(), a0),
        in_bounds(before.len(), a1),
    ensures
        write_back2(before, a0, v0, a1, before[a1]) == write_back(before, a0, v0),
        write_back2(before, a1, before[a1], a0, v0) == write_back(before, a0, v0),
{
    assert(write_back2(before, a0, v0, a1, before[a1]) =~= write_back(before, a0, v0));
    assert(write_back2(before, a1, before[a1], a0, v0) =~= write_back(before, a0, v0));
}

/// Handles to different places are independent: the collection is the same
/// in whichever order the two were asked for.
pub proof fn lemma_write_back2_order<T>(before: Seq<T>, a0: int, v0: T, a1: int, v1: T)
    requires
        a0 != a1,
        in_bounds(before.len(), a0),
        in_bounds(before.len(), a1),
    ensures
        write_back2(before, a0, v0, a1, v1) == write_back2(before, a1, v1, a0, v0),
{
    assert(write_back2(before, a0, v0, a1, v1) =~= write_back2(before, a1, v1, a0, v0));
}

/// Three handles to pairwise different places are independent: the
/// collection is the same in whichever order the three were asked for.
pub proof fn lemma_write_back3_order<T>(
    before: Seq<T>,
    a0: int,
    v0: T,
    a1: int,
    v1: T,
    a2: int,
    v2: T,
)
    requires
        pairwise_distinct(a0, a1, a2),
        in_bounds(before.len(), a0),
        in_bounds(before.len(), a1),
        in_bounds(before.len(), a2),
    ensures
        write_back3(before, a0, v0, a1, v1, a2, v2) == write_back3(before, a1, v1, a0, v0, a2, v2),
        write_back3(before, a0, v0, a1, v1, a2, v2) == write_back3(before, a0, v0, a2, v2, a1, v1),
{
    let all = write_back3(before, a0, v0, a1, v1, a2, v2);
    assert(all =~= write_back3(before, a1, v1, a0, v0, a2, v2));
    assert(all =~= write_back3(before, a0, v0, a2, v2, a1, v1));
}

} // verus!
