use vstd::prelude::*;

verus! {

/// Zero-size tag that is invariant over `T` and `Send`, `Sync` and
/// `Unpin` whatever `T` is. It is shaped as `fn(T) -> T`, a type that Verus
/// does not model, so its field is hidden; it holds no data and no logic.
#[verifier::external_body]
#[derive(Debug, PartialEq, Eq, PartialOrd, Ord)]
#[verifier::reject_recursive_types(T)]
pub struct InvariantTag<T: ?Sized>(core::marker::PhantomData<fn(T) -> T>);

/// Zero-size tag that is covariant over `T`, shaped as `fn() -> T`.
#[verifier::external_body]
#[derive(Debug, PartialEq, Eq, PartialOrd, Ord)]
#[verifier::reject_recursive_types(T)]
pub struct CovariantTag<T: ?Sized>(core::marker::PhantomData<fn() -> T>);

/// Zero-size tag that is contravariant over `T`, shaped as `fn(T)`.
#[verifier::external_body]
#[derive(Debug, PartialEq, Eq, PartialOrd, Ord)]
#[verifier::reject_recursive_types(T)]
pub struct ContravariantTag<T: ?Sized>(core::marker::PhantomData<fn(T)>);

impl<T: ?Sized> Clone for InvariantTag<T> {
    fn clone(&self) -> (r: Self) {
        *self
    }
}

impl<T: ?Sized> Copy for InvariantTag<T> {}

impl<T: ?Sized> Clone for CovariantTag<T> {
    fn clone(&self) -> (r: Self) {
        *self
    }
}

impl<T: ?Sized> Copy for CovariantTag<T> {}

impl<T: ?Sized> Clone for ContravariantTag<T> {
    fn clone(&self) -> (r: Self) {
        *self
    }
}

impl<T: ?Sized> Copy for ContravariantTag<T> {}

} // verus!
