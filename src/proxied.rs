//! Types whose fields can be read and written through views.
use vstd::prelude::*;

use crate::internal::SealedInternal;

verus! {

/// A type that fields of messages can hold and that views hand out.
pub trait Proxied: SealedInternal {}

impl SealedInternal for bool {}

impl SealedInternal for i32 {}

impl SealedInternal for u32 {}

impl SealedInternal for i64 {}

impl SealedInternal for u64 {}

impl SealedInternal for String {}

impl Proxied for bool {}

impl Proxied for i32 {}

impl Proxied for u32 {}

impl Proxied for i64 {}

impl Proxied for u64 {}

impl Proxied for String {}

} // verus!
