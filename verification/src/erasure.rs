//! Values with their static type forgotten.
//!
//! A chain holds values of many types, and a lookup names a key that need not be
//! the key of the entry it is looking at. To speak of all of them at once the
//! contracts forget the static type of a value and of a key, and compare what
//! is left.
//!
//! An erased value is closed to the verifier. Equal values of one type have
//! equal erasures; nothing else is known of an erasure from its definition.
//! That a value is the only one of its type with its erasure is learned from
//! the casts that a lookup makes at run time.
//!
//! Erasure is blind to lifetimes, as the verifier is: two types that differ
//! only in a lifetime are one type to it.

use vstd::prelude::*;

verus! {

/// Implemented by every type, so that a value of any type can be seen as a
/// `dyn Erasable`.
pub trait Erasable {

}

impl<T> Erasable for T {

}

/// A value of some type, the type no longer known statically.
pub struct Erased {
    inner: Box<dyn Erasable>,
}

/// `v` with its static type forgotten.
///
/// Two erased values are equal when they come from the same type, up to the
/// lifetimes in it, and are the same value of it.
pub closed spec fn erase<V: 'static>(v: V) -> Erased {
    Erased { inner: Box::new(v) }
}

/// No other value of `v`'s type has the erasure of `v`.
///
/// Knowing the erasure of such a value, and its type, is knowing the value:
/// whatever of that type erases to the same is equal to it.
pub open spec fn exact<V: 'static>(v: V) -> bool {
    forall|w: V| #[trigger] erase(w) == erase(v) ==> w == v
}

} // verus!
