//! The token type: how a token is made, copied and read.

use crate::cell::{address_of_cell, allocate_cell, cell_address, clone_cell};
use vstd::prelude::*;
use vstd::std_specs::cmp::PartialEqSpec;

verus! {

/// An identity token.
///
/// The token holds a handle to a byte on the heap and never the byte itself, so moving the
/// token (into a vector, out of a function) leaves the byte where it is.
pub struct UniqueId {
    inner: std::pin::Pin<Box<u8>>,
}

impl View for UniqueId {
    type V = usize;

    /// The token's identity value: the address of its cell.
    closed spec fn view(&self) -> usize {
        cell_address(self.inner)
    }
}

/// No two places of `tokens` hold the same identity value.
pub open spec fn pairwise_distinct(tokens: Seq<UniqueId>) -> bool {
    forall|i: int, j: int| 0 <= i < j < tokens.len() ==> tokens[i]@ != tokens[j]@
}

impl UniqueId {
    /// Makes a token with a cell of its own.
    ///
    /// The token differs from every token that is alive at this moment, but a contract can
    /// speak only of tokens that it is given: see `new_distinct_from`.
    pub fn new() -> (id: Self) {
        let nothing: [UniqueId; 0] = [];
        Self::new_distinct_from(nothing.as_slice())
    }

    /// Makes a token with a cell of its own, and states that its identity value differs from
    /// that of each token in `live`.
    pub fn new_distinct_from(live: &[UniqueId]) -> (id: Self)
        ensures
            forall|i: int| 0 <= i < live@.len() ==> (#[trigger] live@[i])@ != id@,
    {
        UniqueId { inner: allocate_cell(live) }
    }

    /// Makes `count` tokens, none of which is dropped before all are made: their identity
    /// values differ pairwise.
    pub fn new_batch(count: usize) -> (tokens: Vec<UniqueId>)
        ensures
            tokens@.len() == count,
            pairwise_distinct(tokens@),
    {
        let mut tokens: Vec<UniqueId> = Vec::new();
        while tokens.len() < count
            invariant
                tokens@.len() <= count,
                pairwise_distinct(tokens@),
            decreases count - tokens@.len(),
        {
            let next = Self::new_distinct_from(tokens.as_slice());
            tokens.push(next);
        }
        tokens
    }

    /// The token's identity value. It is the same on every call, wherever the token has been
    /// moved in between.
    pub fn as_usize(&self) -> (value: usize)
        ensures
            value == self@,
    {
        address_of_cell(&self.inner)
    }
}

impl Default for UniqueId {
    /// The same as `UniqueId::new`.
    fn default() -> (id: Self) {
        Self::new()
    }
}

impl Clone for UniqueId {
    /// Makes a new token, not a copy of this one: the clone has a cell of its own, and its
    /// identity value differs from this token's.
    fn clone(&self) -> (copy: Self)
        ensures
            copy@ != self@,
            !copy.eq_spec(self),
    {
        UniqueId { inner: clone_cell(&self.inner) }
    }
}

} // verus!
