//! The mathematical model of a borrowed collection.
//!
//! A collection is seen as the sequence of its elements. A handle to one
//! element carries the value found there when it was handed out and, once the
//! caller is done with it, the value that was left there. The functions below
//! say what the collection holds after its handles have been given back.

use vstd::prelude::*;

verus! {

/// Whether `a` names an element of a collection of `len` elements.
pub open spec fn in_bounds(len: nat, a: int) -> bool {
    0 <= a < len
}

/// Whether no two of three indices name the same element.
pub open spec fn pairwise_distinct(a0: int, a1: int, a2: int) -> bool {
    a0 != a1 && a1 != a2 && a0 != a2
}

/// The collection after the one handle to element `a0` was given back
/// holding `v0`.
pub open spec fn write_back<T>(before: Seq<T>, a0: int, v0: T) -> Seq<T> {
    before.update(a0, v0)
}

/// The collection after the handles to elements `a0` and `a1` were given
/// back holding `v0` and `v1`.
pub open spec fn write_back2<T>(before: Seq<T>, a0: int, v0: T, a1: int, v1: T) -> Seq<T> {
    write_back(write_back(before, a0, v0), a1, v1)
}

/// The collection after the handles to elements `a0`, `a1` and `a2` were
/// given back holding `v0`, `v1` and `v2`.
pub open spec fn write_back3<T>(
    before: Seq<T>,
    a0: int,
    v0: T,
    a1: int,
    v1: T,
    a2: int,
    v2: T,
) -> Seq<T> {
    write_back(write_back2(before, a0, v0, a1, v1), a2, v2)
}

} // verus!
