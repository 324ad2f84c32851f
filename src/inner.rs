use vstd::prelude::*;

use crate::end::End;

verus! {

/// How a chain node lets subtyping flow through its parameter.
#[derive(PartialEq, Eq, Structural, Clone, Copy, Debug)]
pub enum Variance {
    /// Neither a subtype nor a supertype may stand in.
    Invariant,
    /// A subtype may stand in.
    Covariant,
    /// A supertype may stand in.
    Contravariant,
}

/// A chain of parameters for `UnusedImpl`: either `End`, or a node that
/// names one parameter with its variance and holds the rest of the chain.
///
/// No value of a chain can be built: `inconstruable` turns any value into
/// an `End`, which has none.
pub trait UnusedInner: Sized + Copy + Send + Sync {
    /// The variances of the chain's parameters, first node first.
    spec fn spec_variances() -> Seq<Variance>;

    /// The terminator reached by following the chain's links from `self`.
    spec fn spec_inconstruable(self) -> End;

    /// Follows the chain down to its terminator.
    fn inconstruable(self) -> (r: End)
        ensures
            r == self.spec_inconstruable(),
    ;

    /// The variances of the chain's parameters, first node first.
    fn variances() -> (r: Vec<Variance>)
        ensures
            r@ == Self::spec_variances(),
    ;
}

} // verus!
