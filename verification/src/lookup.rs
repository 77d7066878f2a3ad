//! Lookup in a sequence of entries, newest first.

use crate::erasure::Erased;
use crate::key::KeyId;
use vstd::prelude::*;

verus! {

/// One entry of a chain as the contracts see it: the identity of its key and the
/// value kept under it, both erased.
pub struct Held {
    pub key: KeyId,
    pub value: Erased,
}

/// `i` is the place of the first entry of `s` whose key is `key`.
pub open spec fn is_first(s: Seq<Held>, key: KeyId, i: int) -> bool {
    &&& 0 <= i < s.len()
    &&& s[i].key == key
    &&& forall|j: int| 0 <= j < i ==> (#[trigger] s[j]).key != key
}

/// The place of the first entry of `s` whose key is `key`, if there is one.
pub open spec fn position(s: Seq<Held>, key: KeyId) -> Option<int> {
    if exists|i: int| #[trigger] is_first(s, key, i) {
        Some(choose|i: int| #[trigger] is_first(s, key, i))
    } else {
        None
    }
}

/// The value of the first entry of `s` whose key is `key`, if there is one.
pub open spec fn lookup(s: Seq<Held>, key: KeyId) -> Option<Erased> {
    match position(s, key) {
        Some(i) => Some(s[i].value),
        None => None,
    }
}

/// `s` with `h` put in front of it.
pub open spec fn push_front(s: Seq<Held>, h: Held) -> Seq<Held> {
    seq![h] + s
}

/// Some entry of `s` has the key `key`.
pub open spec fn has_key(s: Seq<Held>, key: KeyId) -> bool {
    exists|i: int| 0 <= i < s.len() && (#[trigger] s[i]).key == key
}

/// No two entries of `s` have the same key.
pub open spec fn distinct_keys(s: Seq<Held>) -> bool {
    forall|i: int, j: int|
        0 <= i < j < s.len() ==> (#[trigger] s[i]).key != (#[trigger] s[j]).key
}

/// A first entry with a given key is found at one place only.
pub proof fn lemma_first_is_unique(s: Seq<Held>, key: KeyId, i: int, j: int)
    requires
        is_first(s, key, i),
        is_first(s, key, j),
    ensures
        i == j,
{
    if i < j {
        assert(s[i].key != key);
    } else if j < i {
        assert(s[j].key != key);
    }
}

/// Where a first entry with the key is known, `position` names that place.
pub proof fn lemma_position_is(s: Seq<Held>, key: KeyId, i: int)
    requires
        is_first(s, key, i),
    ensures
        position(s, key) == Some(i),
        lookup(s, key) == Some(s[i].value),
{
    let k = choose|k: int| #[trigger] is_first(s, key, k);
    lemma_first_is_unique(s, key, i, k);
}

/// A key is found exactly when some entry has it.
pub proof fn lemma_position_some(s: Seq<Held>, key: KeyId)
    ensures
        position(s, key) is Some <==> has_key(s, key),
        position(s, key) matches Some(i) ==> is_first(s, key, i),
{
    if has_key(s, key) {
        let i = choose|i: int| 0 <= i < s.len() && (#[trigger] s[i]).key == key;
        lemma_first_before(s, key, i);
    } else if position(s, key) is Some {
        let i = choose|i: int| #[trigger] is_first(s, key, i);
        assert(s[i].key == key);
    }
}

/// Before any entry with the key there is a first one.
proof fn lemma_first_before(s: Seq<Held>, key: KeyId, i: int)
    requires
        0 <= i < s.len(),
        s[i].key == key,
    ensures
        exists|k: int| #[trigger] is_first(s, key, k),
    decreases i,
{
    if exists|j: int| 0 <= j < i && (#[trigger] s[j]).key == key {
        let j = choose|j: int| 0 <= j < i && (#[trigger] s[j]).key == key;
        lemma_first_before(s, key, j);
    } else {
        assert(is_first(s, key, i));
    }
}

/// A lookup in a sequence with a new entry in front: the new entry answers for
/// its own key, and for every other key the rest answers, one place further on.
pub proof fn lemma_position_push_front(s: Seq<Held>, h: Held, key: KeyId)
    ensures
        h.key == key ==> position(push_front(s, h), key) == Some(0int),
        h.key != key ==> position(push_front(s, h), key) == match position(s, key) {
            Some(i) => Some(i + 1),
            None => None,
        },
        lookup(push_front(s, h), key) == if h.key == key {
            Some(h.value)
        } else {
            lookup(s, key)
        },
{
    let t = push_front(s, h);
    assert(t.len() == s.len() + 1);
    assert(t[0] == h);
    assert(forall|j: int| 0 <= j < s.len() ==> t[j + 1] == s[j]);
    lemma_position_some(s, key);
    lemma_position_some(t, key);
    if h.key == key {
        assert(is_first(t, key, 0));
        lemma_position_is(t, key, 0);
    } else {
        match position(s, key) {
            Some(i) => {
                assert forall|j: int| 0 <= j < i + 1 implies (#[trigger] t[j]).key != key by {
                    if j > 0 {
                        assert(t[j] == s[j - 1]);
                    }
                }
                assert(t[i + 1] == s[i]);
                assert(is_first(t, key, i + 1));
                lemma_position_is(t, key, i + 1);
            },
            None => {
                if position(t, key) is Some {
                    let k = position(t, key).unwrap();
                    assert(t[k] == s[k - 1]);
                    assert(has_key(s, key));
                }
            },
        }
    }
}

/// What lookups find once `h` has been put in front of `s`: under the key of
/// `h` its value, under every other key what they found in `s`.
pub open spec fn found_after_push(s: Seq<Held>, h: Held) -> bool {
    &&& lookup(push_front(s, h), h.key) == Some(h.value)
    &&& forall|key: KeyId|
        key != h.key ==> #[trigger] lookup(push_front(s, h), key) == lookup(s, key)
}

/// A new entry in front answers for its own key and leaves all others to the
/// entries behind it.
pub proof fn lemma_found_after_push(s: Seq<Held>, h: Held)
    ensures
        found_after_push(s, h),
{
    assert forall|key: KeyId| #[trigger]
        lookup(push_front(s, h), key) == if key == h.key {
            Some(h.value)
        } else {
            lookup(s, key)
        } by {
        lemma_position_push_front(s, h, key);
    }
}

/// What lookups find once the entry at place `i` of `s` has been replaced by
/// `h`: under the key of `h` its value, under every other key what they found
/// in `s`.
pub open spec fn found_after_update(s: Seq<Held>, i: int, h: Held) -> bool {
    &&& lookup(s.update(i, h), h.key) == Some(h.value)
    &&& forall|key: KeyId|
        key != h.key ==> #[trigger] lookup(s.update(i, h), key) == lookup(s, key)
}

/// Replacing an entry by one with the same key moves no first entry: every key
/// is found at the place where it was found before.
pub proof fn lemma_position_update(s: Seq<Held>, i: int, h: Held, key: KeyId)
    requires
        0 <= i < s.len(),
        s[i].key == h.key,
    ensures
        position(s.update(i, h), key) == position(s, key),
{
    let t = s.update(i, h);
    lemma_position_some(s, key);
    lemma_position_some(t, key);
    assert(forall|j: int| 0 <= j < s.len() ==> (#[trigger] t[j]).key == s[j].key);
    match position(s, key) {
        Some(k) => {
            assert forall|j: int| 0 <= j < k implies (#[trigger] t[j]).key != key by {
                assert(s[j].key != key);
            }
            assert(is_first(t, key, k));
            lemma_position_is(t, key, k);
        },
        None => {
            if position(t, key) is Some {
                let k = position(t, key).unwrap();
                assert(s[k].key == key);
                assert(has_key(s, key));
            }
        },
    }
}

/// Where the first entry with a key is replaced by another entry with that
/// key, the key gives the new value and every other key gives what it gave.
pub proof fn lemma_found_after_update(s: Seq<Held>, i: int, h: Held)
    requires
        position(s, h.key) == Some(i),
    ensures
        found_after_update(s, i, h),
{
    lemma_position_some(s, h.key);
    assert forall|key: KeyId| #[trigger]
        lookup(s.update(i, h), key) == if key == h.key {
            Some(h.value)
        } else {
            lookup(s, key)
        } by {
        lemma_position_update(s, i, h, key);
        lemma_position_some(s, key);
    }
}

/// In a sequence in which no key occurs twice, every entry is the one that a
/// lookup of its key finds.
pub proof fn lemma_distinct_keys_found(s: Seq<Held>, i: int)
    requires
        distinct_keys(s),
        0 <= i < s.len(),
    ensures
        position(s, s[i].key) == Some(i),
        lookup(s, s[i].key) == Some(s[i].value),
{
    assert(is_first(s, s[i].key, i));
    lemma_position_is(s, s[i].key, i);
}

/// The entry at place `i` of `s` is `was`, and `t` is `s` with `now` in its
/// place.
pub open spec fn changed_at(s: Seq<Held>, t: Seq<Held>, i: int, was: Held, now: Held) -> bool {
    &&& 0 <= i < s.len()
    &&& s[i] == was
    &&& t == s.update(i, now)
}

/// `t` is `s` with one entry replaced: one that was `was` is now `now`.
pub open spec fn changed(s: Seq<Held>, t: Seq<Held>, was: Held, now: Held) -> bool {
    exists|i: int| #[trigger] changed_at(s, t, i, was, now)
}

/// The entries of a sequence with a new entry in front: the new one first,
/// then the old ones, each one place further on.
pub proof fn lemma_push_front_entries(s: Seq<Held>, h: Held)
    ensures
        push_front(s, h).len() == s.len() + 1,
        push_front(s, h)[0] == h,
        forall|j: int| 0 <= j < s.len() ==> #[trigger] push_front(s, h)[j + 1] == s[j],
        push_front(s, h).contains(h),
        has_key(push_front(s, h), h.key),
        forall|g: Held| s.contains(g) ==> #[trigger] push_front(s, h).contains(g),
        forall|key: KeyId| has_key(s, key) ==> #[trigger] has_key(push_front(s, h), key),
{
    let t = push_front(s, h);
    assert(t[0] == h);
    assert(forall|j: int| 0 <= j < s.len() ==> #[trigger] t[j + 1] == s[j]);
    assert forall|g: Held| s.contains(g) implies #[trigger] t.contains(g) by {
        let j = choose|j: int| 0 <= j < s.len() && s[j] == g;
        assert(t[j + 1] == g);
    }
    assert forall|key: KeyId| has_key(s, key) implies #[trigger] has_key(t, key) by {
        let j = choose|j: int| 0 <= j < s.len() && (#[trigger] s[j]).key == key;
        assert(t[j + 1].key == key);
    }
}

/// A change behind a new entry is a change of the whole, one place further
/// on.
pub proof fn lemma_changed_behind(s: Seq<Held>, t: Seq<Held>, i: int, was: Held, now: Held, h: Held)
    requires
        changed_at(s, t, i, was, now),
    ensures
        changed_at(push_front(s, h), push_front(t, h), i + 1, was, now),
        changed(push_front(s, h), push_front(t, h), was, now),
{
    lemma_push_front_entries(s, h);
    assert(push_front(t, h) =~= push_front(s, h).update(i + 1, now));
}

/// A change of the first entry leaves the entries behind it.
pub proof fn lemma_changed_in_front(s: Seq<Held>, was: Held, now: Held)
    ensures
        changed_at(push_front(s, was), push_front(s, now), 0, was, now),
        changed(push_front(s, was), push_front(s, now), was, now),
{
    lemma_push_front_entries(s, was);
    assert(push_front(s, now) =~= push_front(s, was).update(0, now));
}

} // verus!
