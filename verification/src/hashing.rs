//! Hashing a token: its identity value goes to the hasher, and nothing else.

use crate::token::UniqueId;
use vstd::prelude::*;

verus! {

/// Hands `value` to a hasher with `Hash::hash` of `usize`.
///
/// Trusted; nothing is claimed about the hasher's state afterwards, which depends on the
/// hasher.
#[verifier::external_body]
fn feed_usize<H: std::hash::Hasher>(state: &mut H, value: usize) {
    std::hash::Hash::hash(&value, state);
}

impl std::hash::Hash for UniqueId {
    /// Hashes the identity value as a `usize`.
    fn hash<H: std::hash::Hasher>(&self, state: &mut H) {
        feed_usize(state, self.as_usize());
    }
}

} // verus!
