//! The builder: the slots of an array under construction and their fill count.

use crate::error::FillError;
use crate::outcome::taken;
use crate::array::PartialArray;
use crate::slots::occupants;
use vstd::prelude::*;
use vstd::std_specs::iter::IteratorSpec;

verus! {

/// An array of `N` elements under construction.
///
/// The first `filled` slots hold the elements received so far, in the order
/// in which they came; the slots behind them are vacant.
pub struct Builder<T, const N: usize> {
    slots: [Option<T>; N],
    filled: usize,
}

impl<T, const N: usize> Builder<T, N> {
    /// The fill count is within the capacity, the slots below it are occupied
    /// and those from it on are vacant.
    pub closed spec fn wf(&self) -> bool {
        &&& self.filled <= N
        &&& forall|i: int| 0 <= i < self.filled ==> (#[trigger] self.slots@[i]) is Some
        &&& forall|i: int| self.filled <= i < N ==> (#[trigger] self.slots@[i]) is None
    }

    /// The elements received so far, in their order.
    pub closed spec fn view(&self) -> Seq<T> {
        Seq::new(self.filled as nat, |i: int| self.slots@[i]->0)
    }

    /// A builder holds no more elements than it has slots.
    pub proof fn lemma_within_capacity(&self)
        requires
            self.wf(),
        ensures
            self@.len() <= N,
    {
    }

    /// A builder with every slot vacant.
    pub fn new() -> (builder: Self)
        ensures
            builder.wf(),
            builder@ == Seq::<T>::empty(),
    {
        let builder = Builder { slots: <[Option<T>; N] as PartialArray>::uninit(), filled: 0 };
        assert(builder@ =~= Seq::<T>::empty());
        builder
    }

    /// How many slots are filled.
    pub fn filled(&self) -> (count: usize)
        requires
            self.wf(),
        ensures
            count == self@.len(),
            count <= N,
    {
        self.filled
    }

    /// Whether every slot is filled.
    pub fn is_filled(&self) -> (full: bool)
        requires
            self.wf(),
        ensures
            full <==> self@.len() == N,
    {
        self.filled == N
    }

    /// Writes `item` into the first vacant slot, then counts it.
    fn write(&mut self, item: T)
        requires
            old(self).wf(),
            old(self)@.len() < N,
        ensures
            final(self).wf(),
            final(self)@ == old(self)@.push(item),
    {
        let next = self.filled;
        self.slots[next] = Some(item);
        self.filled = next + 1;
        assert(self@ =~= old(self)@.push(item));
    }

    /// Takes items from `iter` into the vacant slots, in order, until every
    /// slot is filled or `iter` has no more. An iterator is asked for an item
    /// only while a slot is vacant.
    pub fn feed<I: Iterator<Item = T>>(&mut self, iter: &mut I)
        requires
            old(self).wf(),
        ensures
            final(self).wf(),
            old(self)@.is_prefix_of(final(self)@),
            old(self)@.len() == N ==> *final(iter) == *old(iter),
            (*old(iter)).obeys_prophetic_iter_laws() ==> ({
                let source = (*old(iter)).remaining();
                let count = taken(source.len(), (N - old(self)@.len()) as nat);
                &&& final(self)@ == old(self)@ + source.take(count as int)
                &&& (*final(iter)).remaining() == source.skip(count as int)
            }),
    {
        let ghost source = (*iter).remaining();
        let ghost start = self@;
        proof {
            assert(self@ =~= start + source.take(0));
            assert(source =~= source.skip(0));
        }
        while self.filled < N
            invariant
                self.wf(),
                start.len() <= self@.len() <= N,
                self@.len() == self.filled,
                start.len() == N ==> *iter == *old(iter),
                start.is_prefix_of(self@),
                (*iter).obeys_prophetic_iter_laws() == (*old(iter)).obeys_prophetic_iter_laws(),
                (*iter).obeys_prophetic_iter_laws() ==> ({
                    let count = self@.len() - start.len();
                    &&& count <= source.len()
                    &&& self@ == start + source.take(count)
                    &&& (*iter).remaining() == source.skip(count)
                }),
            ensures
                self.wf(),
                start.is_prefix_of(self@),
                start.len() == N ==> *iter == *old(iter),
                (*old(iter)).obeys_prophetic_iter_laws() ==> ({
                    let count = taken(source.len(), (N - start.len()) as nat);
                    &&& self@ == start + source.take(count as int)
                    &&& (*iter).remaining() == source.skip(count as int)
                }),
            decreases N - self.filled,
        {
            let ghost before = self@;
            match iter.next() {
                Some(item) => {
                    self.write(item);
                    proof {
                        if (*iter).obeys_prophetic_iter_laws() {
                            let count = before.len() - start.len();
                            assert(source.take(count + 1) =~= source.take(count).push(item));
                            assert(self@ =~= start + source.take(count + 1));
                            assert((*iter).remaining() =~= source.skip(count + 1));
                        }
                    }
                },
                None => {
                    break ;
                },
            }
        }
    }

    /// The array, where every slot is filled; else the error that says how
    /// many were. The elements of a builder that came up short are released.
    pub fn finish(self) -> (outcome: Result<[T; N], FillError>)
        requires
            self.wf(),
        ensures
            match outcome {
                Ok(array) => self@.len() == N && array@ == self@,
                Err(error) => self@.len() < N && error == (FillError {
                    filled: self@.len() as usize,
                    capacity: N,
                }),
            },
    {
        if self.filled == N {
            let array = occupants(self.slots);
            assert(array@ =~= self@);
            Ok(array)
        } else {
            Err(FillError::new(self.filled, N))
        }
    }
}

} // verus!
