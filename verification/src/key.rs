//! Keys: the marker types by which values are put into a chain and found again.

use crate::cast::same_key;
use crate::code::{Code, Coded};
use crate::erasure::{erase, Erased};
use crate::lookup::Held;
use crate::sealed::Sealed;
use core::marker::PhantomData;
use vstd::prelude::*;

verus! {

/// The identity of a key, as the contracts see it.
pub enum KeyId {
    /// The key is a type that the library can tell apart by itself, and this
    /// is its code. No other key has it.
    Coded(Code),
    /// The key is known by its type alone, with the lifetimes in it
    /// forgotten. Two key types that differ only in a lifetime inside a type
    /// argument have this identity in common.
    Named(Erased),
}

/// How a key is identified. The two ways are [`ByName`] and [`ByCode`]; there
/// is no other, and none can be added outside this crate.
pub trait Identified<K: ?Sized + 'static>: Sealed {
    /// The code of `K`, where this way of identifying has one.
    spec fn code() -> Option<Code>;
}

/// Identifies a key by its type alone. Every key type can be identified so.
pub struct ByName {

}

/// Identifies a key by its code. Only a key type that has one, that is one
/// with [`Coded`], can be identified so.
#[verifier::reject_recursive_types(K)]
pub struct ByCode<K> {
    marker: PhantomData<K>,
}

impl Sealed for ByName {

}

impl<K> Sealed for ByCode<K> {

}

impl<K: ?Sized + 'static> Identified<K> for ByName {
    open spec fn code() -> Option<Code> {
        None
    }
}

impl<K: Coded> Identified<K> for ByCode<K> {
    open spec fn code() -> Option<Code> {
        Some(K::code())
    }
}

/// A key of a chain.
///
/// A key is never stored. It is named where a value is added and where one is
/// looked up, and it declares the type of the values kept under it. Two keys
/// are the same key only if they are the same type: keys that declare the
/// same `Value` are still told apart.
pub trait Key: 'static {
    /// The type of the values kept under this key.
    type Value: 'static;

    /// How this key is identified in the contracts of a chain.
    ///
    /// A key type written outside this crate says [`ByName`]. A chain finds
    /// its values like those of any other key, and the contracts say of it
    /// what holds of every key: see [`crate::chain::RecursiveVariadic::get`].
    /// The keys of this crate, [`ByType`] and [`Numbered`], say [`ByCode`];
    /// of them the contracts also say which entry is found.
    type Identity: Identified<Self>;
}

/// Whether the key `K` is identified by a code.
pub open spec fn coded<K: Key>() -> bool {
    <K::Identity as Identified<K>>::code() is Some
}

/// The identity of the key `K`.
///
/// One key has one identity. Two keys that are both identified by a code, or
/// of which one is, have two. Two keys identified by their types alone have
/// two unless they differ only in a lifetime inside a type argument.
pub open spec fn key_of<K: Key>() -> KeyId {
    match <K::Identity as Identified<K>>::code() {
        Some(c) => KeyId::Coded(c),
        None => KeyId::Named(erase(PhantomData::<K>)),
    }
}

/// The entry that the value `v` makes when it is kept under the key `K`.
pub open spec fn held<K: Key>(v: K::Value) -> Held {
    Held { key: key_of::<K>(), value: erase(v) }
}

/// Whether `N` and `T` are the same key.
///
/// Keys that are the same have the same identity. Keys that are not, and of
/// which one is identified by a code, have different identities.
pub fn is_key<N: Key, T: Key>() -> (same: bool)
    ensures
        same ==> key_of::<N>() == key_of::<T>(),
        coded::<N>() || coded::<T>() ==> same == (key_of::<N>() == key_of::<T>()),
{
    same_key::<N, T>()
}

/// The key under which a value of type `V` is kept by its own type alone.
///
/// With these keys a chain holds at most one reachable value of each type,
/// and `get::<ByType<V>>()` finds the value of type `V`.
#[verifier::reject_recursive_types(V)]
pub struct ByType<V> {
    marker: PhantomData<V>,
}

impl<V: Coded> Sealed for ByType<V> {

}

impl<V: Coded> Coded for ByType<V> {
    open spec fn code() -> Code {
        Code::ByType(Box::new(V::code()))
    }
}

impl<V: Coded> Key for ByType<V> {
    type Value = V;

    type Identity = ByCode<Self>;
}

/// The key with the number `ID` for values of type `V`.
///
/// Keys with different numbers are different keys, whether or not they keep
/// values of the same type: `Numbered<0, u32>` and `Numbered<1, u32>` each
/// find their own value.
#[verifier::reject_recursive_types(V)]
pub struct Numbered<const ID: u64, V> {
    marker: PhantomData<V>,
}

impl<const ID: u64, V: Coded> Sealed for Numbered<ID, V> {

}

impl<const ID: u64, V: Coded> Coded for Numbered<ID, V> {
    open spec fn code() -> Code {
        Code::Numbered(ID, Box::new(V::code()))
    }
}

impl<const ID: u64, V: Coded> Key for Numbered<ID, V> {
    type Value = V;

    type Identity = ByCode<Self>;
}

} // verus!
