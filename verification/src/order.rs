//! What the buffer assumes of an element type's ordering.
//!
//! Elements only need `PartialOrd`.  The incremental algorithms are exact for
//! every such type; the stronger minimality statements hold once the order is
//! total and agrees with `==`, which is what `total_order` spells out.

use core::cmp::Ordering;
use vstd::prelude::*;
use vstd::std_specs::cmp::{PartialEqSpec, PartialOrdSpec};

verus! {

/// `a` compares less than or equal to `b`: the comparison is defined and not `Greater`.
pub open spec fn le_under<T: PartialOrd>(a: T, b: T) -> bool {
    a.partial_cmp_spec(&b) matches Some(Ordering::Less | Ordering::Equal)
}

/// Every pair of values is comparable: the order is total, not merely partial.
pub open spec fn comparison_defined<T: PartialOrd>() -> bool {
    forall|a: T, b: T| (#[trigger] a.partial_cmp_spec(&b)) is Some
}

/// Swapping the operands reverses the outcome, as `PartialOrd` documents.
pub open spec fn comparison_antisymmetric<T: PartialOrd>() -> bool {
    forall|a: T, b: T|
        ((#[trigger] a.partial_cmp_spec(&b)) == Some(Ordering::Less) <==> b.partial_cmp_spec(&a)
            == Some(Ordering::Greater)) && (a.partial_cmp_spec(&b) == Some(Ordering::Equal)
            <==> b.partial_cmp_spec(&a) == Some(Ordering::Equal))
}

/// Less-than-or-equal chains compose, as `PartialOrd` documents.
pub open spec fn comparison_transitive<T: PartialOrd>() -> bool {
    forall|a: T, b: T, c: T|
        #[trigger] le_under(a, b) && #[trigger] le_under(b, c) ==> le_under(a, c)
}

/// `==` holds exactly when the comparison returns `Equal`, as `PartialOrd` documents.
pub open spec fn equality_matches_order<T: PartialOrd>() -> bool {
    forall|a: T, b: T|
        (#[trigger] a.eq_spec(&b)) <==> a.partial_cmp_spec(&b) == Some(Ordering::Equal)
}

/// The element type's comparison describes a total order that agrees with `==`.
pub open spec fn total_order<T: PartialOrd>() -> bool {
    &&& comparison_defined::<T>()
    &&& comparison_antisymmetric::<T>()
    &&& comparison_transitive::<T>()
    &&& equality_matches_order::<T>()
}

/// A defined antisymmetric comparison is reflexive: a value is `Equal` to itself.
pub proof fn lemma_reflexive<T: PartialOrd>(a: T)
    requires
        comparison_defined::<T>(),
        comparison_antisymmetric::<T>(),
    ensures
        a.partial_cmp_spec(&a) == Some(Ordering::Equal),
{
    assert(a.partial_cmp_spec(&a) is Some);
    if a.partial_cmp_spec(&a) == Some(Ordering::Less) {
        assert(a.partial_cmp_spec(&a) == Some(Ordering::Greater));
        assert(false);
    }
    if a.partial_cmp_spec(&a) == Some(Ordering::Greater) {
        assert(a.partial_cmp_spec(&a) == Some(Ordering::Less));
        assert(false);
    }
}

/// The standard order on `i64` satisfies every clause of `total_order`.
pub proof fn lemma_total_order_i64()
    ensures
        total_order::<i64>(),
{
}

} // verus!
