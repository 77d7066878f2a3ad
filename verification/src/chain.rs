//! The chain: the empty chain, the entry, and what both can do.

use crate::cast::{same_key, slot_mut, slot_ref};
use crate::erasure::{erase, exact};
use crate::key::{coded, held, key_of, Key, KeyId};
use crate::lookup::{
    changed, changed_at, found_after_push, found_after_update, has_key, lemma_changed_behind,
    lemma_changed_in_front, lemma_found_after_push, lemma_found_after_update,
    lemma_position_push_front, lemma_position_some, lemma_push_front_entries, lookup, position,
    push_front, Held,
};
use vstd::prelude::*;

verus! {

/// The chain that holds nothing.
pub type Empty = ();

/// One value, kept under the key `T`, on top of the chain `R`.
///
/// An entry is made by [`RecursiveVariadic::and`] only. It owns its value and
/// the chain below it.
pub struct Entry<T: Key, R> {
    data: T::Value,
    parent: R,
}

impl<T: Key, R> Entry<T, R> {
    /// The value that this entry keeps under `T`.
    pub closed spec fn value(&self) -> T::Value {
        self.data
    }

    /// The chain that this entry was put on.
    pub closed spec fn rest(&self) -> R {
        self.parent
    }
}

/// What a lookup does at one entry of a chain.
pub enum Step {
    /// It hands out the value of this entry.
    Here,
    /// It hands out nothing.
    Nothing,
    /// It asks the chain below.
    Below,
}

/// What a lookup does at one entry once it has its two answers there: `same`,
/// whether the key asked for is the key of the entry, and `cast`, whether the
/// value of the entry could be seen as a value of the key asked for.
///
/// The key of the entry decides: another key sends the lookup to the chain
/// below, whatever the value of this entry looks like. The key asked for gets
/// the value of this entry.
pub open spec fn step_of(same: bool, cast: bool) -> Step {
    if !same {
        Step::Below
    } else if cast {
        Step::Here
    } else {
        Step::Nothing
    }
}

/// What a lookup does at one entry, given the two answers it got there.
pub fn step(same: bool, cast: bool) -> (r: Step)
    ensures
        r == step_of(same, cast),
{
    if !same {
        Step::Below
    } else if cast {
        Step::Here
    } else {
        Step::Nothing
    }
}

/// What every chain can do: find a value by its key, and grow by one entry.
///
/// The contracts describe a chain by its entries, [`RecursiveVariadic::slots`],
/// and a lookup by [`lookup`] in them: the value of the first entry that has
/// the identity of the key.
///
/// A chain is searched by the types of its keys, and the identity of a key is
/// blind to the lifetimes in that type. So each lookup has a contract in two
/// parts. The first part holds of every key: what is found is the value of an
/// entry with the identity of the key, and where no entry has that identity
/// nothing is found. The second part holds of a key that is identified by a
/// code ([`coded`]), which no other key has: the first entry with its identity
/// is the one that is found.
pub trait RecursiveVariadic: Sized {
    /// The entries of this chain, newest first.
    spec fn slots(&self) -> Seq<Held>;

    /// The value kept under the key `N`, if the chain has an entry with that
    /// key; of several, the newest.
    ///
    /// Of every key: a result `Some(x)` is the value of an entry with the
    /// identity of `N`; it has the erasure that the entry keeps, and it is
    /// the only value of `N::Value` that has. Where no entry has the identity
    /// of `N` the result is `None`.
    ///
    /// Of a key that is identified by a code: the result is
    /// `Some` exactly when a lookup of `N` in the entries finds a value, and
    /// it is then that value.
    fn get<N: Key>(&self) -> (r: Option<&N::Value>)
        ensures
            r matches Some(x) ==> self.slots().contains(held::<N>(*x)) && exact(*x),
            !has_key(self.slots(), key_of::<N>()) ==> r is None,
            coded::<N>() ==> match r {
                Some(x) => lookup(self.slots(), key_of::<N>()) == Some(erase(*x)),
                None => lookup(self.slots(), key_of::<N>()) is None,
            },
    ;

    /// The value kept under the key `N`, to be changed in place, if the chain
    /// has an entry with that key; of several, the newest.
    ///
    /// Of every key: a result `Some(x)` is the value of an entry with the
    /// identity of `N`. When the borrow ends, that entry keeps what the
    /// caller left in `x`, and no other entry has changed. Where the result
    /// is `None` the chain is left as it was, and where no entry has the
    /// identity of `N` the result is `None`.
    ///
    /// Of a key that is identified by a code: the result is
    /// `Some` exactly when a lookup of `N` in the entries finds a value, and
    /// the entry is then the first with the identity of `N`. When the borrow
    /// ends, a lookup of `N` finds what was left, and a lookup of any other
    /// identity finds what it found before.
    fn get_mut<N: Key>(&mut self) -> (r: Option<&mut N::Value>)
        ensures
            match r {
                Some(x) => exact(*x) && changed(
                    old(self).slots(),
                    final(self).slots(),
                    held::<N>(*x),
                    held::<N>(*final(x)),
                ),
                None => *final(self) == *old(self),
            },
            !has_key(old(self).slots(), key_of::<N>()) ==> r is None,
            coded::<N>() ==> match r {
                Some(x) => position(old(self).slots(), key_of::<N>()) matches Some(i)
                    && changed_at(
                    old(self).slots(),
                    final(self).slots(),
                    i,
                    held::<N>(*x),
                    held::<N>(*final(x)),
                ) && found_after_update(old(self).slots(), i, held::<N>(*final(x))),
                None => lookup(old(self).slots(), key_of::<N>()) is None,
            },
    ;

    /// This chain with `val` put on top of it under the key `N`.
    ///
    /// An older entry with the identity of `N` stays in the chain, below the
    /// new one, where no lookup in the entries reaches it: in the new entries
    /// a lookup of `N` finds `val`, and a lookup of any other identity finds
    /// what it found in the entries of this chain.
    fn and<N: Key>(self, val: N::Value) -> (r: Entry<N, Self>)
        ensures
            r.value() == val,
            r.rest() == self,
            found_after_push(self.slots(), held::<N>(r.value())),
    {
        proof {
            lemma_found_after_push(self.slots(), held::<N>(val));
        }
        Entry { data: val, parent: self }
    }

    /// This chain with the default value of `N::Value` put on top of it under
    /// the key `N`: what `and` gives for a value that `N::Value::default()`
    /// returns.
    fn and_default<N: Key>(self) -> (r: Entry<N, Self>) where N::Value: Default
        ensures
            call_ensures(N::Value::default, (), r.value()),
            r.rest() == self,
            found_after_push(self.slots(), held::<N>(r.value())),
    {
        self.and::<N>(N::Value::default())
    }
}

impl RecursiveVariadic for Empty {
    open spec fn slots(&self) -> Seq<Held> {
        Seq::empty()
    }

    fn get<N: Key>(&self) -> (r: Option<&N::Value>)
        ensures
            r is None,
    {
        proof {
            lemma_position_some(self.slots(), key_of::<N>());
        }
        None
    }

    fn get_mut<N: Key>(&mut self) -> (r: Option<&mut N::Value>)
        ensures
            r is None,
    {
        proof {
            lemma_position_some(self.slots(), key_of::<N>());
        }
        None
    }
}

impl<T: Key, R: RecursiveVariadic> RecursiveVariadic for Entry<T, R> {
    open spec fn slots(&self) -> Seq<Held> {
        push_front(self.rest().slots(), held::<T>(self.value()))
    }

    /// Where the value of this entry is handed out, `N` has the identity of
    /// its key; where `N` has another identity, the chain below answers.
    /// Where `N` has the identity of its key and one of the two is identified
    /// by a code, the value of this entry is handed out.
    fn get<N: Key>(&self) -> (r: Option<&N::Value>)
        ensures
            key_of::<N>() != key_of::<T>() ==> (r matches Some(x) ==> self.rest().slots().contains(
                held::<N>(*x),
            )),
            (coded::<N>() || coded::<T>()) && key_of::<N>() == key_of::<T>() ==> (r matches Some(x)
                && erase(*x) == erase(self.value())),
    {
        proof {
            lemma_push_front_entries(self.parent.slots(), held::<T>(self.data));
            lemma_position_push_front(self.parent.slots(), held::<T>(self.data), key_of::<N>());
        }
        let same = same_key::<N, T>();
        let cast = slot_ref::<T, N>(&self.data);
        match step(same, cast.is_some()) {
            Step::Here => cast,
            Step::Nothing => None,
            Step::Below => self.parent.get::<N>(),
        }
    }

    /// Where the value of this entry is handed out, `N` has the identity of
    /// its key and the chain below stays as it is; where `N` has another
    /// identity, the value of this entry stays as it is and the chain below
    /// answers. Where `N` has the identity of its key and one of the two is
    /// identified by a code, the value of this entry is handed out.
    fn get_mut<N: Key>(&mut self) -> (r: Option<&mut N::Value>)
        ensures
            key_of::<N>() != key_of::<T>() ==> final(self).value() == old(self).value(),
            (coded::<N>() || coded::<T>()) && key_of::<N>() == key_of::<T>() ==> (r matches Some(x)
                && erase(*x) == erase(old(self).value()) && erase(*final(x)) == erase(
                final(self).value(),
            ) && final(self).rest() == old(self).rest()),
    {
        proof {
            lemma_push_front_entries(self.parent.slots(), held::<T>(self.data));
            lemma_position_push_front(self.parent.slots(), held::<T>(self.data), key_of::<N>());
            assert forall|i: int, h: Held|
                position(self.slots(), key_of::<N>()) == Some(i) && h.key == key_of::<N>()
                implies #[trigger] found_after_update(self.slots(), i, h) by {
                lemma_found_after_update(self.slots(), i, h);
            }
            // What the borrow will leave cannot be named before it ends, so
            // each step is shown of every sequence that may be left.
            assert forall|now: Held|
                changed_at(
                    self.slots(),
                    #[trigger] push_front(self.parent.slots(), now),
                    0,
                    held::<T>(self.data),
                    now,
                ) by {
                lemma_changed_in_front(self.parent.slots(), held::<T>(self.data), now);
            }
            assert forall|t: Seq<Held>, i: int, was: Held, now: Held| #[trigger]
                changed_at(self.parent.slots(), t, i, was, now) implies changed_at(
                self.slots(),
                push_front(t, held::<T>(self.data)),
                i + 1,
                was,
                now,
            ) by {
                lemma_changed_behind(self.parent.slots(), t, i, was, now, held::<T>(self.data));
            }
            assert forall|u: Seq<Held>, was: Held, now: Held|
                was == held::<T>(self.data) && u == push_front(
                    self.parent.slots(),
                    now,
                ) implies #[trigger] changed(self.slots(), u, was, now) by {
                lemma_changed_in_front(self.parent.slots(), was, now);
            }
            assert forall|t: Seq<Held>, u: Seq<Held>, was: Held, now: Held|
                #[trigger] changed(self.parent.slots(), t, was, now) && u == push_front(
                    t,
                    held::<T>(self.data),
                ) implies #[trigger] changed(self.slots(), u, was, now) by {
                let i = choose|i: int| #[trigger] changed_at(self.parent.slots(), t, i, was, now);
                lemma_changed_behind(self.parent.slots(), t, i, was, now, held::<T>(self.data));
            }
        }
        let same = same_key::<N, T>();
        let cast = slot_ref::<T, N>(&self.data).is_some();
        match step(same, cast) {
            Step::Here => slot_mut::<T, N>(&mut self.data),
            Step::Nothing => None,
            Step::Below => self.parent.get_mut::<N>(),
        }
    }
}

} // verus!
