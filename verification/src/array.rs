//! Arrays as the target of a collection.

use crate::builder::Builder;
use crate::error::FillError;
use crate::outcome::collected;
use crate::slots::vacant_slots;
use vstd::prelude::*;
use vstd::std_specs::iter::IteratorSpec;

verus! {

/// The storage of an array under construction: a slot for each element, which
/// is vacant until the element has been written.
pub trait PartialArray: Sized {
    /// The type of the elements that the slots are for.
    type Element;

    /// The slots in their order, each with the element it holds, if any.
    spec fn slots(&self) -> Seq<Option<Self::Element>>;

    /// Storage in which every slot is vacant.
    fn uninit() -> (partial: Self)
        ensures
            forall|i: int| 0 <= i < partial.slots().len() ==> partial.slots()[i] is None,
    ;
}

/// A fixed-size array.
pub trait Array: Sized {
    /// The array's element type.
    type Item;

    /// The storage in which such an array is built.
    type PartialArray: PartialArray<Element = Self::Item>;

    /// The elements in their order.
    spec fn items(&self) -> Seq<Self::Item>;

    /// The elements as a slice. What is written through the slice is written
    /// to the array.
    fn as_mut_slice(&mut self) -> (slice: &mut [Self::Item])
        ensures
            slice@ == old(self).items(),
            final(self).items() == final(slice)@,
    ;
}

impl<T, const N: usize> Array for [T; N] {
    type Item = T;

    type PartialArray = [Option<T>; N];

    open spec fn items(&self) -> Seq<T> {
        self@
    }

    fn as_mut_slice(&mut self) -> (slice: &mut [T]) {
        self
    }
}

impl<T, const N: usize> PartialArray for [Option<T>; N] {
    type Element = T;

    open spec fn slots(&self) -> Seq<Option<T>> {
        self@
    }

    fn uninit() -> (partial: Self) {
        vacant_slots()
    }
}

/// An outcome with the array, if there is one, as the sequence of its elements.
pub open spec fn contents<A: Array>(outcome: Result<A, FillError>) -> Result<
    Seq<A::Item>,
    FillError,
> {
    match outcome {
        Ok(array) => Ok(array.items()),
        Err(error) => Err(error),
    }
}

/// Arrays that can be collected from an iterator.
pub trait FromIter<T>: Array<Item = T> {
    /// The number of elements of every array of this type.
    spec fn capacity() -> usize;

    /// Collects the first items of `iter` into an array, as many as the array
    /// has elements and in their order. Where `iter` yields fewer, the error
    /// says how many it gave.
    fn from_iter<I: Iterator<Item = T>>(iter: I) -> (outcome: Result<Self, FillError>)
        ensures
            iter.obeys_prophetic_iter_laws() ==> contents(outcome) == collected(
                iter.remaining(),
                Self::capacity(),
            ),
            Self::capacity() == 0 ==> outcome is Ok,
            outcome matches Ok(array) ==> array.items().len() == Self::capacity(),
            outcome matches Err(error) ==> error.filled < error.capacity && error.capacity
                == Self::capacity(),
    ;
}

impl<T, const N: usize> FromIter<T> for [T; N] {
    open spec fn capacity() -> usize {
        N
    }

    fn from_iter<I: Iterator<Item = T>>(iter: I) -> (outcome: Result<Self, FillError>) {
        let mut iter = iter;
        let mut builder = Builder::<T, N>::new();
        builder.feed(&mut iter);
        builder.finish()
    }
}

/// Iterators, as sources of arrays.
pub trait IntoArray: Iterator {
    /// Collects the first items of this iterator into an array of type `A`.
    fn array_collect<A: FromIter<Self::Item>>(self) -> (outcome: Result<A, FillError>) where
        Self: Sized,

        ensures
            self.obeys_prophetic_iter_laws() ==> contents(outcome) == collected(
                self.remaining(),
                A::capacity(),
            ),
            A::capacity() == 0 ==> outcome is Ok,
            outcome matches Ok(array) ==> array.items().len() == A::capacity(),
            outcome matches Err(error) ==> error.filled < error.capacity && error.capacity
                == A::capacity(),
    {
        A::from_iter(self)
    }
}

impl<I: Iterator> IntoArray for I {

}

} // verus!
