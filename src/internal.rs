//! Items that generated code needs but application code must not use: the
//! capability token, the sealing trait, and default synthesis for repeated and
//! map fields.
use vstd::prelude::*;

use crate::map::{MapView, ProxiedInMapValue};
use crate::proxied::Proxied;
use crate::repeated::{ProxiedInRepeated, RepeatedView};

verus! {

/// Used to protect internal-only items from being used accidentally: a
/// function that takes one can only be called by code that builds one.
#[derive(Debug)]
pub struct Private;

/// A trait that is used as a subtrait of traits that are meant to be used but
/// not implemented by users.
///
/// It is available to generated code, but not to application code. `Sized` is
/// required because these traits are not meant to support trait objects.
pub trait SealedInternal: Sized {}

/// Equality matching for test tooling; only sealed types can implement it.
pub trait MatcherEq: SealedInternal + core::fmt::Debug {
    fn matches(&self, o: &Self) -> bool;
}

/// The default value for an element of the repeated field behind `_view`.
/// It is `T`'s own default: the field's storage is neither read nor written.
pub fn get_repeated_default_value<T: ProxiedInRepeated + Default>(
    _private: Private,
    _view: RepeatedView<'_, T>,
) -> (r: T)
    ensures
        call_ensures(T::default, (), r),
{
    T::default()
}

/// The default value for a value of the map field behind `_view`. It is `V`'s
/// own default: the field's storage is neither read nor written.
pub fn get_map_default_value<K: Proxied, V: ProxiedInMapValue<K> + Default>(
    _private: Private,
    _view: MapView<'_, K, V>,
) -> (r: V)
    ensures
        call_ensures(V::default, (), r),
{
    V::default()
}

} // verus!
