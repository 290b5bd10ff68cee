//! Equality and order of tokens, both by identity value.

use crate::token::UniqueId;
use std::cmp::Ordering;
use vstd::prelude::*;

verus! {

/// How two identity values stand to each other.
pub open spec fn identity_order(left: usize, right: usize) -> Ordering {
    if left < right {
        Ordering::Less
    } else if left == right {
        Ordering::Equal
    } else {
        Ordering::Greater
    }
}

impl PartialEq for UniqueId {
    /// Two tokens are equal when their cells lie at the same address.
    fn eq(&self, other: &Self) -> (equal: bool)
        ensures
            equal == (self@ == other@),
    {
        self.as_usize() == other.as_usize()
    }
}

impl vstd::std_specs::cmp::PartialEqSpecImpl for UniqueId {
    open spec fn obeys_eq_spec() -> bool {
        true
    }

    open spec fn eq_spec(&self, other: &Self) -> bool {
        self@ == other@
    }
}

impl Eq for UniqueId {

}

impl PartialOrd for UniqueId {
    /// Orders two tokens as their identity values are ordered; the result is never `None`.
    fn partial_cmp(&self, other: &Self) -> (order: Option<Ordering>)
        ensures
            order == Some(identity_order(self@, other@)),
    {
        Some(self.as_usize().cmp(&other.as_usize()))
    }
}

impl vstd::std_specs::cmp::PartialOrdSpecImpl for UniqueId {
    open spec fn obeys_partial_cmp_spec() -> bool {
        true
    }

    open spec fn partial_cmp_spec(&self, other: &Self) -> Option<Ordering> {
        Some(identity_order(self@, other@))
    }
}

impl UniqueId {
    /// Orders two tokens as their identity values are ordered. This is the comparison
    /// behind `Ord::cmp`.
    pub fn compare(&self, other: &Self) -> (order: Ordering)
        ensures
            order == identity_order(self@, other@),
    {
        self.as_usize().cmp(&other.as_usize())
    }
}

impl Ord for UniqueId {
    /// Orders two tokens as their identity values are ordered: one call of `compare`.
    ///
    /// Trusted: the verifier does not read this body, because `Ord` puts a clause of its
    /// own on `cmp` that cannot be proved for a type outside the standard library. The
    /// clause below is the one that `compare` is proved to meet.
    #[verifier::external_body]
    fn cmp(&self, other: &Self) -> (order: Ordering)
        ensures
            order == identity_order(self@, other@),
    {
        self.compare(other)
    }
}

} // verus!
