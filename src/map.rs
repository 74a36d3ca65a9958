//! Read-only views over map fields.
use vstd::prelude::*;

use crate::internal::Private;
use crate::proxied::Proxied;

verus! {

/// A type that can be the value type of a map field keyed by `K`.
pub trait ProxiedInMapValue<K: Proxied>: Proxied {}

impl<K: Proxied> ProxiedInMapValue<K> for bool {}

impl<K: Proxied> ProxiedInMapValue<K> for i32 {}

impl<K: Proxied> ProxiedInMapValue<K> for u32 {}

impl<K: Proxied> ProxiedInMapValue<K> for i64 {}

impl<K: Proxied> ProxiedInMapValue<K> for u64 {}

impl<K: Proxied> ProxiedInMapValue<K> for String {}

/// A view of a map field's entries, which the owning message's storage holds.
/// It borrows that storage for `'msg` and cannot outlive it.
pub struct MapView<'msg, K, V> {
    entries: &'msg [(K, V)],
}

impl<'msg, K, V> View for MapView<'msg, K, V> {
    type V = Seq<(K, V)>;

    closed spec fn view(&self) -> Seq<(K, V)> {
        self.entries@
    }
}

impl<'msg, K, V> MapView<'msg, K, V> {
    /// A view of the entries held in `entries`, for generated accessors.
    pub fn from_raw(_private: Private, entries: &'msg [(K, V)]) -> (r: Self)
        ensures
            r@ == entries@,
    {
        MapView { entries }
    }

    /// Number of entries in the field.
    pub fn len(&self) -> (r: usize)
        ensures
            r == self@.len(),
    {
        self.entries.len()
    }

    /// Whether the field holds no entry.
    pub fn is_empty(&self) -> (r: bool)
        ensures
            r == (self@.len() == 0),
    {
        self.entries.len() == 0
    }
}

} // verus!
