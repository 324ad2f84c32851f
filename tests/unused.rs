use std::cell::UnsafeCell;
use std::collections::hash_map::DefaultHasher;
use std::hash::{Hash, Hasher};
use std::marker::PhantomPinned;
use std::rc::Rc;

use unused::{Contravariant, Covariant, End, Invariant, Unused, UnusedImpl, UnusedInner, Variance};

fn simple_covariant<'a>(
    unused: Unused<Covariant<&'static str, End>>,
) -> Unused<Covariant<&'a str, End>> {
    unused
}

fn covariant_and_invariant<'a>(
    unused: Unused<Invariant<u8, Covariant<&'static u16, Invariant<&'a str, End>>>>,
) -> Unused<Invariant<u8, Covariant<&'a u16, Invariant<&'a str, End>>>> {
    unused
}

fn covariant_and_contravariant<'a>(
    unused: Unused<Contravariant<&'a str, Covariant<&'static str, End>>>,
) -> Unused<Contravariant<&'static str, Covariant<&'a str, End>>> {
    unused
}

fn contravariant_widens<'a>(
    unused: Unused<Contravariant<&'a u32, End>>,
) -> Unused<Contravariant<&'static u32, End>> {
    unused
}

#[test]
fn variance() {
    let _ = simple_covariant(Unused::new());
    let _ = covariant_and_invariant(Unused::new());
    let _ = covariant_and_contravariant(Unused::new());
}

#[test]
fn contravariant_accepts_shorter_lived_parameter() {
    let u = contravariant_widens(Unused::new());
    assert!(matches!(u, UnusedImpl::Unused));
}

fn thread_traits_are_implemented<T: Send + Sync + Unpin>() {}

#[test]
fn thread_traits() {
    thread_traits_are_implemented::<
        Unused<Covariant<Rc<str>, Invariant<UnsafeCell<i32>, Contravariant<PhantomPinned, End>>>>,
    >();
    thread_traits_are_implemented::<Unused<Invariant<Rc<String>, End>>>();
}

struct Foo<T> {
    #[allow(dead_code)]
    unused: Unused<Invariant<T, End>>,
}

#[test]
fn macro_used_as_value() {
    let _ = Foo {
        unused: UnusedImpl::<Invariant<u8, End>>::Unused,
    };
}

/// A parameter type with no traits at all.
struct Opaque;

#[test]
fn constructed_values_are_equal() {
    let a: Unused<Invariant<Opaque, End>> = Unused::new();
    let b: Unused<Invariant<Opaque, End>> = Default::default();
    assert!(a == b);
    assert!(!(a != b));
    assert_eq!(a.partial_cmp(&b), Some(std::cmp::Ordering::Equal));
    assert!(matches!(a, UnusedImpl::Unused));
    assert!(matches!(b, UnusedImpl::Unused));
}

#[test]
fn order_is_always_equal() {
    let a: Unused<Covariant<u8, End>> = Unused::new();
    let b: Unused<Covariant<u8, End>> = Unused::new();
    assert_eq!(a.cmp(&b), std::cmp::Ordering::Equal);
    assert!(!(a < b));
    assert!(a <= b);
    assert!(a >= b);
}

#[test]
fn hashing_adds_nothing() {
    let mut plain = DefaultHasher::new();
    1u64.hash(&mut plain);
    let mut with_unused = DefaultHasher::new();
    1u64.hash(&mut with_unused);
    let u: Unused<Contravariant<u16, Invariant<i8, End>>> = Unused::new();
    u.hash(&mut with_unused);
    assert_eq!(plain.finish(), with_unused.finish());
}

#[test]
fn clone_equals_original() {
    let a: Unused<Covariant<u8, Contravariant<u16, Invariant<u32, End>>>> = Unused::new();
    let c = a.clone();
    assert!(c == a);
    assert!(a == c);
    assert!(matches!(c, UnusedImpl::Unused));
    let d: Unused<End> = Unused::new();
    assert!(d.clone() == d);
}

#[test]
fn debug_shows_name_only() {
    let a: Unused<Invariant<u8, End>> = Unused::new();
    assert_eq!(format!("{:?}", a), "Unused");
}

#[test]
fn empty_chain_lists_nothing() {
    assert_eq!(<End as UnusedInner>::variances(), Vec::<Variance>::new());
}

#[test]
fn chain_lists_variances_in_order() {
    type Chain = Covariant<u8, Contravariant<u16, Invariant<u32, End>>>;
    assert_eq!(
        <Chain as UnusedInner>::variances(),
        vec![Variance::Covariant, Variance::Contravariant, Variance::Invariant]
    );
    assert_eq!(
        <Invariant<u8, End> as UnusedInner>::variances(),
        vec![Variance::Invariant]
    );
    assert_eq!(
        <Contravariant<u8, Contravariant<u8, End>> as UnusedInner>::variances(),
        vec![Variance::Contravariant, Variance::Contravariant]
    );
}
