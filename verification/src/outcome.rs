//! What collecting a source into an array yields, and what holds of it.

use crate::error::FillError;
use vstd::prelude::*;

verus! {

/// How many items a builder with `room` vacant slots takes from a source that
/// has `available` items left: as many as there are, up to the room.
pub open spec fn taken(available: nat, room: nat) -> nat {
    if available < room {
        available
    } else {
        room
    }
}

/// The outcome of collecting `source` into an array of `capacity` slots: its
/// first `capacity` items in their order, or, where it has fewer, the error
/// that counts them.
pub open spec fn collected<T>(source: Seq<T>, capacity: usize) -> Result<Seq<T>, FillError> {
    if source.len() >= capacity {
        Ok(source.take(capacity as int))
    } else {
        Err(FillError { filled: source.len() as usize, capacity })
    }
}

/// Feeding stops when the slots are full or the source has run out, whichever
/// comes first: it overruns neither.
pub proof fn lemma_taken_stops(available: nat, room: nat)
    ensures
        taken(available, room) <= available,
        taken(available, room) <= room,
        taken(available, room) == available || taken(available, room) == room,
{
}

/// A source of exactly as many items as the array has slots is collected
/// whole: the array holds the source's items in their order.
pub proof fn lemma_exact_fill<T>(source: Seq<T>, capacity: usize)
    requires
        source.len() == capacity,
    ensures
        collected(source, capacity) == Ok::<Seq<T>, FillError>(source),
        taken(source.len(), capacity as nat) == source.len(),
{
    assert(source.take(capacity as int) =~= source);
}

/// A source of fewer items than the array has slots gives the error that
/// counts the items of the source and names the number of slots.
pub proof fn lemma_undersupply<T>(source: Seq<T>, capacity: usize)
    requires
        source.len() < capacity,
    ensures
        collected(source, capacity) matches Err(error) && error.filled == source.len()
            && error.capacity == capacity,
        taken(source.len(), capacity as nat) == source.len(),
{
}

/// Of a source of more items than the array has slots, the first items are
/// collected, as many as there are slots; the others stay with the source.
pub proof fn lemma_oversupply<T>(source: Seq<T>, capacity: usize)
    requires
        source.len() > capacity,
    ensures
        collected(source, capacity) == Ok::<Seq<T>, FillError>(source.take(capacity as int)),
        taken(source.len(), capacity as nat) == capacity,
        source.skip(capacity as int).len() == source.len() - capacity,
        source == source.take(capacity as int) + source.skip(capacity as int),
{
    assert(source =~= source.take(capacity as int) + source.skip(capacity as int));
}

/// An array without slots is collected from any source, and nothing is taken
/// from the source.
pub proof fn lemma_zero_capacity<T>(source: Seq<T>)
    ensures
        collected(source, 0) == Ok::<Seq<T>, FillError>(Seq::empty()),
        taken(source.len(), 0) == 0,
{
    assert(source.take(0) =~= Seq::<T>::empty());
}

/// A collected array holds, at each index, the item that the source has at
/// that index.
pub proof fn lemma_order_preserved<T>(source: Seq<T>, capacity: usize)
    ensures
        collected(source, capacity) matches Ok(items) ==> items.len() == capacity && forall|
            i: int,
        |
            0 <= i < capacity ==> items[i] == source[i],
{
}

/// A collection succeeds exactly where the source has an item for every slot.
pub proof fn lemma_success<T>(source: Seq<T>, capacity: usize)
    ensures
        collected(source, capacity) is Ok <==> source.len() >= capacity,
{
}

} // verus!
