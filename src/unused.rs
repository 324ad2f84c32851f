use vstd::prelude::*;

use vstd::std_specs::cmp::{PartialEqSpec, PartialOrdSpec};

use crate::inner::UnusedInner;

verus! {

/// A zero-size container for the unused generic parameters listed in the
/// chain `T`.
///
/// Its one value is `Unused`: the other variant would hold a chain value,
/// and no chain has one. Every two containers over the same chain are
/// equal, compare as equal and hash alike.
#[derive(Debug, Ord)]
pub enum UnusedImpl<T: UnusedInner> {
    /// The container's value.
    Unused,
    /// Would hold a chain value; no chain has one, so this is never built.
    __Inconstruable(T),
}

impl<T: UnusedInner> UnusedImpl<T> {
    /// The container's value; asks nothing of the chain's parameters.
    pub fn new() -> (r: Self)
        ensures
            r is Unused,
    {
        UnusedImpl::Unused
    }
}

impl<T: UnusedInner> Default for UnusedImpl<T> {
    fn default() -> (r: Self)
        ensures
            r is Unused,
    {
        UnusedImpl::Unused
    }
}

impl<T: UnusedInner> Clone for UnusedImpl<T> {
    fn clone(&self) -> (r: Self)
        ensures
            r is Unused,
    {
        UnusedImpl::Unused
    }
}

impl<T: UnusedInner> Copy for UnusedImpl<T> {}

impl<T: UnusedInner> PartialEq for UnusedImpl<T> {
    fn eq(&self, other: &Self) -> (r: bool)
        ensures
            r,
    {
        true
    }
}

impl<T: UnusedInner> vstd::std_specs::cmp::PartialEqSpecImpl for UnusedImpl<T> {
    open spec fn obeys_eq_spec() -> bool {
        true
    }

    open spec fn eq_spec(&self, other: &Self) -> bool {
        true
    }
}

impl<T: UnusedInner> Eq for UnusedImpl<T> {}

impl<T: UnusedInner> PartialOrd for UnusedImpl<T> {
    fn partial_cmp(&self, other: &Self) -> (r: Option<core::cmp::Ordering>)
        ensures
            r == Some(core::cmp::Ordering::Equal),
    {
        Some(core::cmp::Ordering::Equal)
    }
}

impl<T: UnusedInner> vstd::std_specs::cmp::PartialOrdSpecImpl for UnusedImpl<T> {
    open spec fn obeys_partial_cmp_spec() -> bool {
        true
    }

    open spec fn partial_cmp_spec(&self, other: &Self) -> Option<core::cmp::Ordering> {
        Some(core::cmp::Ordering::Equal)
    }
}


impl<T: UnusedInner> core::hash::Hash for UnusedImpl<T> {
    fn hash<H: core::hash::Hasher>(&self, state: &mut H)
        ensures
            *final(state) == *old(state),
    {
    }
}

/// Any two containers over the same chain are equal under `==` and compare
/// as `Equal`, in both orders.
pub proof fn lemma_unused_values_agree<T: UnusedInner>(a: UnusedImpl<T>, b: UnusedImpl<T>)
    ensures
        a.eq_spec(&b),
        b.eq_spec(&a),
        a.partial_cmp_spec(&b) == Some(core::cmp::Ordering::Equal),
        b.partial_cmp_spec(&a) == Some(core::cmp::Ordering::Equal),
{
}

/// Two containers that were built (by `new`, `default` or `clone`) are the
/// same value.
pub proof fn lemma_built_values_identical<T: UnusedInner>(a: UnusedImpl<T>, b: UnusedImpl<T>)
    requires
        a is Unused,
        b is Unused,
    ensures
        a == b,
{
}

/// A clone of a container is equal to the original under `==`, in both
/// orders, and is the value that `new` builds.
pub proof fn lemma_clone_is_equal<T: UnusedInner>(x: UnusedImpl<T>, c: UnusedImpl<T>)
    requires
        call_ensures(UnusedImpl::<T>::clone, (&x,), c),
    ensures
        c.eq_spec(&x),
        x.eq_spec(&c),
        c is Unused,
{
}

} // verus!
