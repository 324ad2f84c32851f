use vstd::prelude::*;

use crate::end::End;
use crate::inner::{UnusedInner, Variance};
use crate::tag::CovariantTag;

verus! {

/// A chain node that is covariant over `T`, followed by the chain `N`.
///
/// Like every chain, it has no values: its `next` field would have to hold
/// one of `N`, and the chain ends in `End`. Its comparisons therefore
/// report equality and its hash adds nothing: there are no two values to
/// tell apart.
#[derive(Debug, Ord)]
#[verifier::reject_recursive_types(T)]
pub struct Covariant<T: ?Sized, N: UnusedInner> {
    _t: CovariantTag<T>,
    next: N,
}

impl<T: ?Sized, N: UnusedInner> Covariant<T, N> {
    /// The rest of the chain, held in the node's `next` link.
    pub closed spec fn spec_next(self) -> N {
        self.next
    }
}

impl<T: ?Sized, N: UnusedInner> UnusedInner for Covariant<T, N> {
    open spec fn spec_variances() -> Seq<Variance> {
        seq![Variance::Covariant].add(N::spec_variances())
    }

    open spec fn spec_inconstruable(self) -> End {
        self.spec_next().spec_inconstruable()
    }

    fn inconstruable(self) -> (r: End) {
        self.next.inconstruable()
    }

    fn variances() -> (r: Vec<Variance>) {
        let mut r: Vec<Variance> = Vec::new();
        r.push(Variance::Covariant);
        let mut rest = N::variances();
        r.append(&mut rest);
        r
    }
}

impl<T: ?Sized, N: UnusedInner> Clone for Covariant<T, N> {
    fn clone(&self) -> (r: Self)
        ensures
            r == *self,
    {
        *self
    }
}

impl<T: ?Sized, N: UnusedInner> Copy for Covariant<T, N> {}

impl<T: ?Sized, N: UnusedInner> PartialEq for Covariant<T, N> {
    fn eq(&self, other: &Self) -> (r: bool) {
        true
    }
}

impl<T: ?Sized, N: UnusedInner> vstd::std_specs::cmp::PartialEqSpecImpl for Covariant<T, N> {
    open spec fn obeys_eq_spec() -> bool {
        true
    }

    open spec fn eq_spec(&self, other: &Self) -> bool {
        true
    }
}

impl<T: ?Sized, N: UnusedInner> Eq for Covariant<T, N> {}

impl<T: ?Sized, N: UnusedInner> PartialOrd for Covariant<T, N> {
    fn partial_cmp(&self, other: &Self) -> (r: Option<core::cmp::Ordering>) {
        Some(core::cmp::Ordering::Equal)
    }
}

impl<T: ?Sized, N: UnusedInner> vstd::std_specs::cmp::PartialOrdSpecImpl for Covariant<T, N> {
    open spec fn obeys_partial_cmp_spec() -> bool {
        true
    }

    open spec fn partial_cmp_spec(&self, other: &Self) -> Option<core::cmp::Ordering> {
        Some(core::cmp::Ordering::Equal)
    }
}

impl<T: ?Sized, N: UnusedInner> core::hash::Hash for Covariant<T, N> {
    fn hash<H: core::hash::Hasher>(&self, state: &mut H)
        ensures
            *final(state) == *old(state),
    {
    }
}

} // verus!
