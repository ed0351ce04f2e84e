//! Arrays of slots, each of them vacant or holding one element.

use vstd::prelude::*;

verus! {

/// A vacant slot, whatever its place in the array.
pub(crate) fn vacant<T>(_index: usize) -> (slot: Option<T>)
    ensures
        slot is None,
{
    None
}

/// The element that an occupied slot holds.
pub(crate) fn occupant<T>(slot: Option<T>) -> (item: T)
    requires
        slot is Some,
    ensures
        item == slot->0,
{
    slot.unwrap()
}

/// An array of `N` vacant slots.
///
/// Trusted: `core::array::from_fn` makes an array whose element at each index
/// is what the given function returns for that index, and [`vacant`] returns
/// a vacant slot for every index.
#[verifier::external_body]
pub(crate) fn vacant_slots<T, const N: usize>() -> (slots: [Option<T>; N])
    ensures
        forall|i: int| 0 <= i < N ==> slots@[i] is None,
{
    core::array::from_fn(vacant)
}

/// The elements of `N` occupied slots, in the order of the slots.
///
/// Trusted: the method `map` of an array returns an array of the same size
/// that holds, at each index, what the given function returns for the element
/// at that index, and [`occupant`] returns what an occupied slot holds.
#[verifier::external_body]
pub(crate) fn occupants<T, const N: usize>(slots: [Option<T>; N]) -> (items: [T; N])
    requires
        forall|i: int| 0 <= i < N ==> slots@[i] is Some,
    ensures
        forall|i: int| 0 <= i < N ==> items@[i] == slots@[i]->0,
{
    slots.map(occupant)
}

} // verus!
