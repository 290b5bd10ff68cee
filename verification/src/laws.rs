//! What holds of tokens in general, proved from the contracts of the functions.

use crate::order::identity_order;
use crate::token::{pairwise_distinct, UniqueId};
use std::cmp::Ordering;
use vstd::prelude::*;
use vstd::std_specs::cmp::{PartialEqSpec, PartialOrdSpec};

verus! {

/// A token keeps its identity value while the vector that holds it grows: whatever is
/// pushed behind it, the token at a place that was filled before is the token that was
/// there, with the identity value it had.
///
/// The first clause is a fact about sequences and holds of elements of any type. The
/// second follows from it, because the identity value is a function of the token alone and
/// not of the place where the token lies.
pub proof fn lemma_growth_keeps_identity(held: Seq<UniqueId>, pushed: Seq<UniqueId>, place: int)
    requires
        0 <= place < held.len(),
    ensures
        (held + pushed)[place] == held[place],
        (held + pushed)[place]@ == held[place]@,
{
}

/// Every token equals itself.
pub proof fn lemma_eq_reflexive(token: UniqueId)
    ensures
        token.eq_spec(&token),
{
}

/// Equality of tokens is symmetric and transitive.
pub proof fn lemma_eq_equivalence(a: UniqueId, b: UniqueId, c: UniqueId)
    ensures
        a.eq_spec(&b) <==> b.eq_spec(&a),
        a.eq_spec(&b) && b.eq_spec(&c) ==> a.eq_spec(&c),
{
}

/// Tokens with different identity values are unequal, and unequal tokens have different
/// identity values.
pub proof fn lemma_eq_is_same_identity(a: UniqueId, b: UniqueId)
    ensures
        a.eq_spec(&b) <==> a@ == b@,
{
}

/// A token whose identity value differs from each one in a pairwise distinct sequence can
/// be added to it, and the sequence stays pairwise distinct.
pub proof fn lemma_distinct_extends(live: Seq<UniqueId>, fresh: UniqueId)
    requires
        pairwise_distinct(live),
        forall|i: int| 0 <= i < live.len() ==> (#[trigger] live[i])@ != fresh@,
    ensures
        pairwise_distinct(live.push(fresh)),
{
}

/// In a pairwise distinct sequence, tokens at different places are unequal.
pub proof fn lemma_distinct_places_unequal(tokens: Seq<UniqueId>, i: int, j: int)
    requires
        pairwise_distinct(tokens),
        0 <= i < tokens.len(),
        0 <= j < tokens.len(),
        i != j,
    ensures
        tokens[i]@ != tokens[j]@,
        !tokens[i].eq_spec(&tokens[j]),
{
    if i < j {
        assert(tokens[i]@ != tokens[j]@);
    } else {
        assert(tokens[j]@ != tokens[i]@);
    }
}

/// The order is total and agrees with the identity values: of two tokens, the first is
/// less than, equal to or greater than the second, exactly one of the three, as its
/// identity value is less than, equal to or greater than the other's.
pub proof fn lemma_order_total(a: UniqueId, b: UniqueId)
    ensures
        a.partial_cmp_spec(&b) == Some(Ordering::Less) <==> a@ < b@,
        a.partial_cmp_spec(&b) == Some(Ordering::Equal) <==> a@ == b@,
        a.partial_cmp_spec(&b) == Some(Ordering::Greater) <==> a@ > b@,
        a.partial_cmp_spec(&b) == Some(Ordering::Equal) <==> a.eq_spec(&b),
        a.partial_cmp_spec(&b) is Some,
{
}

/// Turning two tokens round turns the order round.
pub proof fn lemma_order_antisymmetric(a: UniqueId, b: UniqueId)
    ensures
        a.partial_cmp_spec(&b) == Some(Ordering::Less) <==> b.partial_cmp_spec(&a) == Some(
            Ordering::Greater,
        ),
        a.partial_cmp_spec(&b) == Some(Ordering::Equal) <==> b.partial_cmp_spec(&a) == Some(
            Ordering::Equal,
        ),
{
}

/// The order is transitive.
pub proof fn lemma_order_transitive(a: UniqueId, b: UniqueId, c: UniqueId)
    requires
        a.partial_cmp_spec(&b) == Some(Ordering::Less),
        b.partial_cmp_spec(&c) == Some(Ordering::Less),
    ensures
        a.partial_cmp_spec(&c) == Some(Ordering::Less),
{
}

/// Equal tokens have the same identity value. The identity value is the one thing that a
/// token hands to a hasher, so this is what makes hashing agree with equality; of the
/// hasher itself nothing is proved here.
pub proof fn lemma_equal_tokens_same_identity(a: UniqueId, b: UniqueId)
    requires
        a.eq_spec(&b),
    ensures
        a@ == b@,
{
}

/// What `cmp` and `compare` return for two tokens is what `partial_cmp` returns, and is
/// `Equal` exactly when the tokens are equal.
pub proof fn lemma_compare_agrees(a: UniqueId, b: UniqueId)
    ensures
        a.partial_cmp_spec(&b) == Some(identity_order(a@, b@)),
        identity_order(a@, b@) == Ordering::Equal <==> a.eq_spec(&b),
        identity_order(a@, b@) == Ordering::Less <==> a@ < b@,
        identity_order(a@, b@) == Ordering::Greater <==> a@ > b@,
{
}

/// A value compared with itself gives `Equal`.
pub proof fn lemma_identity_order_reflexive(value: usize)
    ensures
        identity_order(value, value) == Ordering::Equal,
{
}

/// Exchanging the two values reverses the result of the comparison.
pub proof fn lemma_identity_order_reverses(left: usize, right: usize)
    ensures
        identity_order(left, right) == Ordering::Less <==> identity_order(right, left)
            == Ordering::Greater,
        identity_order(left, right) == Ordering::Equal <==> identity_order(right, left)
            == Ordering::Equal,
        identity_order(left, right) == Ordering::Greater <==> identity_order(right, left)
            == Ordering::Less,
{
}

/// `Less` is transitive, and so is `Greater`.
pub proof fn lemma_identity_order_transitive(low: usize, middle: usize, high: usize)
    ensures
        identity_order(low, middle) == Ordering::Less && identity_order(middle, high)
            == Ordering::Less ==> identity_order(low, high) == Ordering::Less,
        identity_order(high, middle) == Ordering::Greater && identity_order(middle, low)
            == Ordering::Greater ==> identity_order(high, low) == Ordering::Greater,
{
}

/// Tokens keep the laws that the standard library asks of `PartialEq` and `PartialOrd`,
/// in the form in which vstd states them.
pub proof fn lemma_obeys_comparison_laws()
    ensures
        vstd::laws_eq::obeys_eq::<UniqueId>(),
        vstd::laws_eq::obeys_view_eq::<UniqueId>(),
        vstd::laws_cmp::obeys_cmp_partial_ord::<UniqueId>(),
        vstd::laws_cmp::obeys_partial_cmp_spec_properties::<UniqueId>(),
{
    reveal(vstd::laws_eq::obeys_eq_spec_properties);
    reveal(vstd::laws_eq::obeys_view_eq);
    reveal(vstd::laws_cmp::obeys_cmp_partial_ord);
    reveal(vstd::laws_cmp::obeys_partial_cmp_spec_properties);
}

} // verus!
