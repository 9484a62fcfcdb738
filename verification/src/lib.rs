//! Mutable references to two or three elements of one slice at a time.
//!
//! A slice hands out one `&mut` to one element at a time. These functions
//! hand out two or three at once, to elements at different places:
//! [`array_mut_ref`] and [`array_mut_ref3`] where the caller knows the places
//! to differ, [`mut_twice`] where two places may turn out to be the same one.
//!
//! Each contract relates three things: the slice as it was, the value that
//! each handle holds when it is handed out, and the slice as it will be once
//! the handles are given back. The last is stated in [`model`]; what follows
//! from it for every caller is proved in [`laws`].

use vstd::prelude::*;

pub mod laws;
pub mod model;

use crate::model::{in_bounds, pairwise_distinct, write_back, write_back2, write_back3};

verus! {

/// Hands out mutable references to the elements at `a0` and `a1`, in that
/// order.
///
/// The two places must differ and lie within the slice. Each handle starts
/// at the value its element has, and what is written through a handle is
/// what the slice holds at that place afterwards; every other element stays
/// as it was.
#[inline]
pub fn array_mut_ref<T>(arr: &mut [T], a0: usize, a1: usize) -> (r: (&mut T, &mut T))
    requires
        a0 != a1,
        in_bounds(old(arr)@.len(), a0 as int),
        in_bounds(old(arr)@.len(), a1 as int),
    ensures
        *r.0 == old(arr)@[a0 as int],
        *r.1 == old(arr)@[a1 as int],
        final(arr)@ == write_back2(old(arr)@, a0 as int, *final(r.0), a1 as int, *final(r.1)),
        final(arr)@[a0 as int] == *final(r.0),
        final(arr)@[a1 as int] == *final(r.1),
{
    // Everything before the larger index lies in `left`, the element at the
    // larger index is the first of `right`: the two borrows cannot overlap.
    if a0 < a1 {
        let (left, right) = arr.split_at_mut(a1);
        (&mut left[a0], &mut right[0])
    } else {
        let (left, right) = arr.split_at_mut(a0);
        (&mut right[0], &mut left[a1])
    }
}

/// Hands out mutable references to the elements at `a0`, `a1` and `a2`, in
/// that order.
///
/// No two of the places may be the same, and all must lie within the slice.
/// Each handle starts at the value its element has, and what is written
/// through a handle is what the slice holds at that place afterwards; every
/// other element stays as it was.
#[inline]
pub fn array_mut_ref3<T>(arr: &mut [T], a0: usize, a1: usize, a2: usize) -> (r: (
    &mut T,
    &mut T,
    &mut T,
))
    requires
        pairwise_distinct(a0 as int, a1 as int, a2 as int),
        in_bounds(old(arr)@.len(), a0 as int),
        in_bounds(old(arr)@.len(), a1 as int),
        in_bounds(old(arr)@.len(), a2 as int),
    ensures
        *r.0 == old(arr)@[a0 as int],
        *r.1 == old(arr)@[a1 as int],
        *r.2 == old(arr)@[a2 as int],
        final(arr)@ == write_back3(
            old(arr)@,
            a0 as int,
            *final(r.0),
            a1 as int,
            *final(r.1),
            a2 as int,
            *final(r.2),
        ),
        final(arr)@[a0 as int] == *final(r.0),
        final(arr)@[a1 as int] == *final(r.1),
        final(arr)@[a2 as int] == *final(r.2),
{
    // Split off the element at the largest index; the other two then lie in
    // `left`, where the two-element form takes them apart.
    if a0 > a1 && a0 > a2 {
        let (left, right) = arr.split_at_mut(a0);
        let (h1, h2) = array_mut_ref(left, a1, a2);
        (&mut right[0], h1, h2)
    } else if a1 > a2 {
        let (left, right) = arr.split_at_mut(a1);
        let (h0, h2) = array_mut_ref(left, a0, a2);
        (h0, &mut right[0], h2)
    } else {
        let (left, right) = arr.split_at_mut(a2);
        let (h0, h1) = array_mut_ref(left, a0, a1);
        (h0, h1, &mut right[0])
    }
}

/// Hands out mutable references to the elements at `a0` and `a1`, or the one
/// reference there can be when both name the same element.
///
/// `Ok` comes exactly when the places differ, with the handles in the order
/// of the indices. `Err` comes exactly when they are the same, and carries
/// the handle to that one element, through which it can still be changed.
/// Both places must lie within the slice.
#[inline]
pub fn mut_twice<T>(arr: &mut [T], a0: usize, a1: usize) -> (r: Result<(&mut T, &mut T), &mut T>)
    requires
        in_bounds(old(arr)@.len(), a0 as int),
        in_bounds(old(arr)@.len(), a1 as int),
    ensures
        r is Ok <==> a0 != a1,
        r matches Ok((h0, h1)) ==> *h0 == old(arr)@[a0 as int],
        r matches Ok((h0, h1)) ==> *h1 == old(arr)@[a1 as int],
        r matches Ok((h0, h1)) ==> final(arr)@ == write_back2(
            old(arr)@,
            a0 as int,
            *final(h0),
            a1 as int,
            *final(h1),
        ),
        r matches Ok((h0, h1)) ==> final(arr)@[a0 as int] == *final(h0),
        r matches Ok((h0, h1)) ==> final(arr)@[a1 as int] == *final(h1),
        r matches Err(h) ==> *h == old(arr)@[a0 as int],
        r matches Err(h) ==> final(arr)@ == write_back(old(arr)@, a0 as int, *final(h)),
        r matches Err(h) ==> final(arr)@[a0 as int] == *final(h),
{
    if a0 == a1 {
        Err(&mut arr[a0])
    } else {
        Ok(array_mut_ref(arr, a0, a1))
    }
}

} // verus!
