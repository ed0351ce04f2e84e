//! The error of a collection that came up short.

use crate::decimal::{append_decimal, decimal};
use vstd::prelude::*;
use vstd::string::StringExecFns;

verus! {

/// Fewer elements were available than the array has slots.
#[derive(Copy, Clone, Debug, PartialEq, Eq, PartialOrd, Ord, Structural)]
pub struct FillError {
    /// How many slots were filled before the source ran out.
    pub filled: usize,
    /// How many slots the array has.
    pub capacity: usize,
}

/// The text of the message for an array of `capacity` slots of which `filled`
/// were written.
pub open spec fn message_text(capacity: nat, filled: nat) -> Seq<char> {
    "Failed to collect into an array of size "@ + decimal(capacity) + ". Wrote "@ + decimal(filled)
        + " elements"@
}

impl FillError {
    pub fn new(filled: usize, capacity: usize) -> (error: Self)
        ensures
            error == (FillError { filled, capacity }),
    {
        Self { filled, capacity }
    }

    /// The message that describes this error.
    pub fn message(&self) -> (text: String)
        ensures
            text@ == message_text(self.capacity as nat, self.filled as nat),
    {
        let mut text = String::from_str("Failed to collect into an array of size ");
        append_decimal(&mut text, self.capacity);
        text.append(". Wrote ");
        append_decimal(&mut text, self.filled);
        text.append(" elements");
        text
    }
}

} // verus!
