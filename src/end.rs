use vstd::prelude::*;

use crate::inner::{UnusedInner, Variance};

verus! {

/// The empty chain: a type with no values, closing every chain of
/// parameters.
///
/// Its one field is `Infallible`, an enum without variants, so Rust lets no
/// value of `End` exist. Verus gives every type a value and sees the field
/// as opaque, so proofs here never rest on that emptiness.
#[derive(Debug, Clone, Copy, PartialEq, Eq, PartialOrd, Ord, Hash)]
pub struct End(core::convert::Infallible);

impl UnusedInner for End {
    open spec fn spec_variances() -> Seq<Variance> {
        Seq::empty()
    }

    open spec fn spec_inconstruable(self) -> End {
        self
    }

    fn inconstruable(self) -> (r: End) {
        self
    }

    fn variances() -> (r: Vec<Variance>) {
        Vec::new()
    }
}

} // verus!
