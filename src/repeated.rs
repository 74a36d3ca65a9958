//! Read-only views over repeated fields.
use vstd::prelude::*;

use crate::internal::Private;
use crate::proxied::Proxied;

verus! {

/// A type that can be the element type of a repeated field.
pub trait ProxiedInRepeated: Proxied {}

impl ProxiedInRepeated for bool {}

impl ProxiedInRepeated for i32 {}

impl ProxiedInRepeated for u32 {}

impl ProxiedInRepeated for i64 {}

impl ProxiedInRepeated for u64 {}

impl ProxiedInRepeated for String {}

/// A view of a repeated field's elements, which the owning message's storage
/// holds. It borrows that storage for `'msg` and cannot outlive it.
pub struct RepeatedView<'msg, T> {
    elems: &'msg [T],
}

impl<'msg, T> View for RepeatedView<'msg, T> {
    type V = Seq<T>;

    closed spec fn view(&self) -> Seq<T> {
        self.elems@
    }
}

impl<'msg, T> RepeatedView<'msg, T> {
    /// A view of the elements held in `elems`, for generated accessors.
    pub fn from_raw(_private: Private, elems: &'msg [T]) -> (r: Self)
        ensures
            r@ == elems@,
    {
        RepeatedView { elems }
    }

    /// Number of elements in the field.
    pub fn len(&self) -> (r: usize)
        ensures
            r == self@.len(),
    {
        self.elems.len()
    }

    /// Whether the field holds no element.
    pub fn is_empty(&self) -> (r: bool)
        ensures
            r == (self@.len() == 0),
    {
        self.elems.len() == 0
    }

    /// The element at `index`, or `None` past the end.
    pub fn get(&self, index: usize) -> (r: Option<&'msg T>)
        ensures
            index < self@.len() ==> r == Some(&self@[index as int]),
            index >= self@.len() ==> r is None,
    {
        if index < self.elems.len() {
            Some(&self.elems[index])
        } else {
            None
        }
    }
}

} // verus!
