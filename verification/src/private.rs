//! Keeps the erased interface closed to impls from outside this crate.

use vstd::prelude::*;

verus! {

/// Only types of this crate can have it, so only they can have
/// [`AnyZonbi`](crate::cage::AnyZonbi).
pub trait Sealed {
}

} // verus!
