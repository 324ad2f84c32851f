//! Containers for generic parameters that a type names but never owns.
//!
//! `UnusedImpl<C>` is a zero-size value that anchors otherwise unused type
//! parameters. The parameters are listed in the chain `C`, built from
//! [`Invariant`], [`Covariant`] and [`Contravariant`] nodes and closed by
//! [`End`]. Each node picks the variance of its parameter, and no node can
//! ever hold a value, so the container's only value is `UnusedImpl::Unused`.
use vstd::prelude::*;

mod contravariant;
mod covariant;
mod end;
mod inner;
mod invariance;
mod tag;
mod unused;

pub use crate::contravariant::Contravariant;
pub use crate::covariant::Covariant;
pub use crate::end::End;
pub use crate::inner::{UnusedInner, Variance};
pub use crate::invariance::Invariant;
pub use crate::unused::UnusedImpl;
pub use crate::unused::{
    lemma_built_values_identical, lemma_clone_is_equal, lemma_unused_values_agree,
};

verus! {

/// The container for the unused parameters listed in the chain `T`.
pub type Unused<T> = UnusedImpl<T>;

/// Chains nest one node per parameter, in the order listed: `End` lists
/// none, and a node lists its own variance before those of the chain it
/// holds.
pub proof fn lemma_chain_nests<T: ?Sized, N: UnusedInner>()
    ensures
        End::spec_variances() =~= Seq::<Variance>::empty(),
        Invariant::<T, N>::spec_variances() =~= seq![Variance::Invariant] + N::spec_variances(),
        Covariant::<T, N>::spec_variances() =~= seq![Variance::Covariant] + N::spec_variances(),
        Contravariant::<T, N>::spec_variances() =~= seq![Variance::Contravariant]
            + N::spec_variances(),
        Invariant::<T, N>::spec_variances().len() == N::spec_variances().len() + 1,
        Covariant::<T, N>::spec_variances().len() == N::spec_variances().len() + 1,
        Contravariant::<T, N>::spec_variances().len() == N::spec_variances().len() + 1,
{
}

/// Following a chain to its terminator passes through one link per node:
/// `End` maps to itself, and a node maps to whatever its next link maps to.
pub proof fn lemma_inconstruable_follows_links<T: ?Sized, N: UnusedInner>(
    e: End,
    i: Invariant<T, N>,
    c: Covariant<T, N>,
    x: Contravariant<T, N>,
)
    ensures
        e.spec_inconstruable() == e,
        i.spec_inconstruable() == i.spec_next().spec_inconstruable(),
        c.spec_inconstruable() == c.spec_next().spec_inconstruable(),
        x.spec_inconstruable() == x.spec_next().spec_inconstruable(),
{
}

} // verus!
