//! What the proofs take on trust of the `factory` crate.
use vstd::prelude::*;
use factory::{DefaultFactory, Factory};

verus! {

/// `factory::DefaultFactory<T>`: the factory that keeps no state and makes
/// each item by default construction of `T`.
#[verifier::external_type_specification]
#[verifier::external_body]
#[verifier::reject_recursive_types(T)]
pub struct ExDefaultFactory<T>(DefaultFactory<T>);

/// Whether `item` is a value that `T::default()` can return.
pub open spec fn is_default<T: Default>(item: T) -> bool {
    call_ensures(T::default, (), item)
}

/// `<DefaultFactory<T> as Default>::default`, which `derive` wrote over a
/// marker field: it returns a default factory and cannot fail. Nothing more is
/// claimed of the value.
pub assume_specification<T: Default>[ <DefaultFactory<T> as Default>::default ]() -> (factory:
    DefaultFactory<T>)
;

/// `<DefaultFactory<T> as Factory>::create`, whose body is the one call
/// `T::default()`: whatever it returns, `T::default()` can return.
pub assume_specification<T: Default>[ <DefaultFactory<T> as Factory>::create ](
    factory: &DefaultFactory<T>,
) -> (item: <DefaultFactory<T> as Factory>::Item)
    ensures
        is_default::<T>(item),
;

} // verus!
