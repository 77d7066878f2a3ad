//! What holds of every chain, stated over its entries and proved.
//!
//! The laws speak of a lookup in the entries of a chain. That is what `get`
//! and `get_mut` find for every key that is identified by a code
//! ([`crate::key::coded`]). Of a key that is identified by its type alone their
//! contracts say less, because such a key may share its identity with a type
//! that differs from it in a lifetime.

use crate::chain::{Entry, RecursiveVariadic};
use crate::erasure::{erase, exact};
use crate::key::{coded, held, key_of, Identified, Key, KeyId};
use crate::lookup::{
    distinct_keys, has_key, lemma_distinct_keys_found, lemma_found_after_push,
    lemma_found_after_update, lemma_position_some, lookup, position,
};
use vstd::prelude::*;

verus! {

/// The empty chain keeps nothing under any key.
pub proof fn law_empty_holds_nothing(key: KeyId)
    ensures
        ().slots().len() == 0,
        lookup(().slots(), key) is None,
{
    lemma_position_some(().slots(), key);
}

/// A lookup finds nothing exactly when no entry of the chain has the identity
/// of the key: a key that was never added is absent, and a key that was added
/// is present.
pub proof fn law_absent_exactly_when_never_added<C: RecursiveVariadic>(c: C, key: KeyId)
    ensures
        lookup(c.slots(), key) is None <==> !has_key(c.slots(), key),
{
    lemma_position_some(c.slots(), key);
}

/// The newest entry answers for its key, whatever the chain below it holds:
/// a value added under a key hides every older value under the same key.
pub proof fn law_newest_entry_shadows<N: Key, R: RecursiveVariadic>(e: Entry<N, R>)
    ensures
        lookup(e.slots(), key_of::<N>()) == Some(erase(e.value())),
{
    lemma_found_after_push(e.rest().slots(), held::<N>(e.value()));
}

/// An entry with another key is passed over: the chain below it answers.
pub proof fn law_other_key_is_passed_over<N: Key, T: Key, R: RecursiveVariadic>(e: Entry<T, R>)
    requires
        key_of::<N>() != key_of::<T>(),
    ensures
        lookup(e.slots(), key_of::<N>()) == lookup(e.rest().slots(), key_of::<N>()),
{
    lemma_found_after_push(e.rest().slots(), held::<T>(e.value()));
}

/// In a chain whose keys are all different, in whatever order they were
/// added, a lookup of the key of any entry finds the value of that entry.
pub proof fn law_distinct_keys_are_all_found<C: RecursiveVariadic>(c: C, i: int)
    requires
        distinct_keys(c.slots()),
        0 <= i < c.slots().len(),
    ensures
        lookup(c.slots(), c.slots()[i].key) == Some(c.slots()[i].value),
{
    lemma_distinct_keys_found(c.slots(), i);
}

/// What a lookup hands out is the value that was put in: a value that erases
/// to what an entry keeps, and that is the only one of its type to do so, is
/// equal to every value of its type that the entry was made from.
pub proof fn law_found_is_what_was_put_in<V: 'static>(found: V, put_in: V)
    requires
        erase(found) == erase(put_in),
        exact(found),
    ensures
        found == put_in,
{
}

/// Two keys that declare the same type of value do not share a value: with
/// one entry for each, in either order, each key finds its own. That the two
/// have different identities is plain from their codes where both have one,
/// and is what [`crate::key::is_key`] shows at run time where one of them has.
pub proof fn law_keys_with_one_value_type_stay_apart<
    A: Key,
    B: Key<Value = A::Value>,
    R: RecursiveVariadic,
>(e: Entry<B, Entry<A, R>>)
    requires
        key_of::<A>() != key_of::<B>(),
    ensures
        lookup(e.slots(), key_of::<A>()) == Some(erase(e.rest().value())),
        lookup(e.slots(), key_of::<B>()) == Some(erase(e.value())),
{
    lemma_found_after_push(e.rest().slots(), held::<B>(e.value()));
    lemma_found_after_push(e.rest().rest().slots(), held::<A>(e.rest().value()));
}

/// A change made through `get_mut` is what later lookups find: once the
/// entry found under `N` holds `v`, a lookup of `N` finds `v`, and a lookup
/// of any other key finds what it found before.
pub proof fn law_change_is_seen<C: RecursiveVariadic, N: Key>(before: C, after: C, v: N::Value)
    requires
        position(before.slots(), key_of::<N>()) matches Some(i) && after.slots()
            == before.slots().update(i, held::<N>(v)),
    ensures
        lookup(after.slots(), key_of::<N>()) == Some(erase(v)),
        forall|key: KeyId|
            key != key_of::<N>() ==> #[trigger] lookup(after.slots(), key) == lookup(
                before.slots(),
                key,
            ),
{
    let i = position(before.slots(), key_of::<N>()).unwrap();
    lemma_found_after_update(before.slots(), i, held::<N>(v));
}

/// A key that is identified by a code shares its identity with no other
/// key: another key has the same identity only if it has the same code, and
/// a key identified by its type alone never has.
pub proof fn law_code_is_identity<N: Key, T: Key>()
    requires
        coded::<N>(),
    ensures
        key_of::<N>() == key_of::<T>() <==> <T::Identity as Identified<T>>::code() == <
            N::Identity as Identified<N>
        >::code(),
{
}

} // verus!
