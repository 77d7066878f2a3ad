//! The three calls into `std::any` that a lookup rests on.
//!
//! The bodies of these functions are not verified: their contracts are taken
//! as given. Each contract says of one function of `std::any` what its
//! documentation says, in terms of the identities of keys and of erased
//! values.
//!
//! The standard library tells two types apart where they differ in anything,
//! a lifetime inside a type argument too. So where it finds two keys to be
//! the same, they have the same identity. Where it finds them to differ, the
//! contracts say that their identities differ only if one of the two is
//! identified by a code ([`coded`]): a key that has a code is a type of this
//! crate, built from the types listed in [`crate::code`], and no other type
//! has its code. Of two keys that are identified by their types alone the
//! contracts say nothing then: they may be two types that differ only in a
//! lifetime.
//!
//! A cast that succeeds hands back the very reference it was given. Values of
//! two types cannot be compared directly, so the contracts say it in two
//! parts: the result has the erasure of what was given, and no other value of
//! its type has.

use crate::erasure::{erase, exact};
use crate::key::{coded, key_of, Key};
use core::any::Any;
use core::marker::PhantomData;
use vstd::prelude::*;

verus! {

/// Whether `N` and `T` are the same key, by `<dyn Any>::is`.
///
/// `is` is called on a marker of `N` and asked whether it is a marker of `T`.
/// The standard library answers `true` exactly when the two marker types are
/// the same type, which they are exactly when `N` and `T` are. The contract
/// claims:
/// - where the answer is `true`, the two keys have the same identity;
/// - where one of the two keys is identified by a code and the two have the
///   same identity, both have that code, they are the same type, and the
///   answer is `true`.
#[verifier::external_body]
pub(crate) fn same_key<N: Key, T: Key>() -> (same: bool)
    ensures
        same ==> key_of::<N>() == key_of::<T>(),
        (coded::<N>() || coded::<T>()) && key_of::<N>() == key_of::<T>() ==> same,
{
    let marker: &dyn Any = &PhantomData::<N>;
    marker.is::<PhantomData<T>>()
}

/// The value kept under `T`, seen as a value of `N`, by `<dyn Any>::downcast_ref`.
///
/// `downcast_ref` returns the reference it was given, at the type asked for,
/// when the value behind it has that type, and `None` otherwise. The contract
/// claims:
/// - a result `Some(x)` is `data` itself: it has the erasure of `data`, and no
///   other value of its type has;
/// - where one of the two keys is identified by a code and the two have the
///   same identity, they are the same type, so are `N::Value` and `T::Value`,
///   and the result is `Some`.
#[verifier::external_body]
pub(crate) fn slot_ref<T: Key, N: Key>(data: &T::Value) -> (r: Option<&N::Value>)
    ensures
        r matches Some(x) ==> erase(*x) == erase(*data) && exact(*x),
        (coded::<N>() || coded::<T>()) && key_of::<N>() == key_of::<T>() ==> r is Some,
{
    let any: &dyn Any = data;
    any.downcast_ref::<N::Value>()
}

/// The value kept under `T`, seen as a value of `N` that can be changed, by
/// `<dyn Any>::downcast_mut`.
///
/// `downcast_mut` returns the reference it was given, at the type asked for,
/// when the value behind it has that type, and `None` otherwise. The contract
/// claims:
/// - a result `Some(x)` is `data` itself, now and when the borrow ends: `x`
///   has the erasure of `data` and no other value of its type has, and what is
///   left in `data` has the erasure of what is left in `x`;
/// - where the result is `None`, `data` is left as it was;
/// - where one of the two keys is identified by a code and the two have the
///   same identity, they are the same type, and the result is `Some`.
#[verifier::external_body]
pub(crate) fn slot_mut<T: Key, N: Key>(data: &mut T::Value) -> (r: Option<&mut N::Value>)
    ensures
        r matches Some(x) ==> {
            &&& erase(*x) == erase(*old(data))
            &&& exact(*x)
            &&& erase(*final(data)) == erase(*final(x))
        },
        r is None ==> *final(data) == *old(data),
        (coded::<N>() || coded::<T>()) && key_of::<N>() == key_of::<T>() ==> r is Some,
{
    let any: &mut dyn Any = data;
    any.downcast_mut::<N::Value>()
}

} // verus!
