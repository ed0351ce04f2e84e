//! Collecting an iterator into a fixed-size array.
//!
//! An array of `N` elements is built from a source whose length is not known
//! beforehand. A [`Builder`] owns `N` slots and a count of how many of them,
//! from the front, hold an element. Feeding it takes items from the source
//! until the slots are full or the source has run out. Finishing it hands out
//! the array if every slot is occupied, and otherwise a [`FillError`] that says
//! how many slots were filled and how many there are.
//!
//! No partly filled array ever reaches the caller: a builder that is dropped
//! releases the elements it holds, each of them once.

pub mod array;
pub mod builder;
pub mod decimal;
pub mod error;
pub mod outcome;
mod slots;

pub use array::{Array, FromIter, IntoArray, PartialArray};
pub use builder::Builder;
pub use error::FillError;
