//! Small maps from text keys to values, kept as lists of entries.
//!
//! An entry list is a map as long as no key stands in it twice. The lists
//! keep the order in which keys were first set, so that what is listed from
//! them comes out in a fixed order.
//!
//! They stand where a hash map with `String` keys would: Verus has no model
//! of hashing for `String`, so nothing could be proved of such a map.

use vstd::prelude::*;

verus! {

/// No key stands in `entries` twice.
pub open spec fn distinct_keys<T>(entries: Seq<(Seq<char>, T)>) -> bool {
    forall|i: int, j: int|
        0 <= i < entries.len() && 0 <= j < entries.len() && i != j ==> entries[i].0 != entries[j].0
}

/// `entries` holds `key` at position `i`, and not before.
pub open spec fn first_at<T>(entries: Seq<(Seq<char>, T)>, key: Seq<char>, i: int) -> bool {
    &&& 0 <= i < entries.len()
    &&& entries[i].0 == key
    &&& forall|j: int| 0 <= j < i ==> entries[j].0 != key
}

/// Some entry of `entries` has the key `key`.
pub open spec fn contains_key<T>(entries: Seq<(Seq<char>, T)>, key: Seq<char>) -> bool {
    exists|i: int| 0 <= i < entries.len() && entries[i].0 == key
}

/// The position of the first entry with the key `key`.
pub open spec fn position<T>(entries: Seq<(Seq<char>, T)>, key: Seq<char>) -> int {
    choose|i: int| first_at(entries, key, i)
}

/// The value of the first entry with the key `key`, if there is one.
pub open spec fn lookup<T>(entries: Seq<(Seq<char>, T)>, key: Seq<char>) -> Option<T> {
    if contains_key(entries, key) {
        Some(entries[position(entries, key)].1)
    } else {
        None
    }
}

/// `entries` with `value` under `key`: in the place of the first entry with
/// that key, or at the end where there is none.
pub open spec fn upsert<T>(entries: Seq<(Seq<char>, T)>, key: Seq<char>, value: T) -> Seq<
    (Seq<char>, T),
> {
    if contains_key(entries, key) {
        entries.update(position(entries, key), (key, value))
    } else {
        entries.push((key, value))
    }
}

/// `entries` without the first entry with the key `key`.
pub open spec fn without<T>(entries: Seq<(Seq<char>, T)>, key: Seq<char>) -> Seq<(Seq<char>, T)> {
    if contains_key(entries, key) {
        entries.remove(position(entries, key))
    } else {
        entries
    }
}

/// Where a key is held, `position` names its first entry.
pub proof fn lemma_position<T>(entries: Seq<(Seq<char>, T)>, key: Seq<char>)
    requires
        contains_key(entries, key),
    ensures
        first_at(entries, key, position(entries, key)),
    decreases entries.len(),
{
    let i = choose|i: int| 0 <= i < entries.len() && entries[i].0 == key;
    lemma_first_exists(entries, key, i);
}

/// Below any entry with the key there is a first one.
pub proof fn lemma_first_exists<T>(entries: Seq<(Seq<char>, T)>, key: Seq<char>, i: int)
    requires
        0 <= i < entries.len(),
        entries[i].0 == key,
    ensures
        exists|k: int| first_at(entries, key, k),
    decreases i,
{
    if forall|j: int| 0 <= j < i ==> entries[j].0 != key {
        assert(first_at(entries, key, i));
    } else {
        let j = choose|j: int| 0 <= j < i && entries[j].0 == key;
        lemma_first_exists(entries, key, j);
    }
}

/// The first entry with a key is the one that `position` names.
pub proof fn lemma_first_is_position<T>(entries: Seq<(Seq<char>, T)>, key: Seq<char>, i: int)
    requires
        first_at(entries, key, i),
    ensures
        contains_key(entries, key),
        position(entries, key) == i,
        lookup(entries, key) == Some(entries[i].1),
{
    lemma_position(entries, key);
    let p = position(entries, key);
    if p < i {
        assert(entries[p].0 != key);
    } else if i < p {
        assert(entries[i].0 != key);
    }
}

/// Setting a key keeps the keys distinct, makes the key hold the value, and
/// leaves what every other key holds.
pub proof fn lemma_upsert<T>(entries: Seq<(Seq<char>, T)>, key: Seq<char>, value: T)
    requires
        distinct_keys(entries),
    ensures
        distinct_keys(upsert(entries, key, value)),
        lookup(upsert(entries, key, value), key) == Some(value),
        forall|other: Seq<char>|
            other != key ==> lookup(upsert(entries, key, value), other) == lookup(entries, other),
        forall|other: Seq<char>|
            contains_key(upsert(entries, key, value), other) <==> (other == key || contains_key(
                entries,
                other,
            )),
{
    let after = upsert(entries, key, value);
    if contains_key(entries, key) {
        lemma_position(entries, key);
        let p = position(entries, key);
        assert(first_at(after, key, p));
        lemma_first_is_position(after, key, p);
        assert forall|other: Seq<char>| other != key implies lookup(after, other) == lookup(
            entries,
            other,
        ) by {
            lemma_same_keys_lookup(entries, after, other, p);
        }
        assert forall|other: Seq<char>|
            contains_key(after, other) <==> (other == key || contains_key(entries, other)) by {
            if contains_key(after, other) {
                let i = choose|i: int| 0 <= i < after.len() && after[i].0 == other;
                if i != p {
                    assert(entries[i].0 == other);
                }
            }
            if contains_key(entries, other) {
                let i = choose|i: int| 0 <= i < entries.len() && entries[i].0 == other;
                assert(after[i].0 == other);
            }
        }
    } else {
        let p = entries.len() as int;
        assert forall|j: int| 0 <= j < p implies after[j].0 != key by {
            assert(after[j] == entries[j]);
        }
        assert(first_at(after, key, p));
        lemma_first_is_position(after, key, p);
        assert forall|other: Seq<char>| other != key implies lookup(after, other) == lookup(
            entries,
            other,
        ) by {
            if contains_key(entries, other) {
                lemma_position(entries, other);
                let q = position(entries, other);
                assert(after[q] == entries[q]);
                assert forall|j: int| 0 <= j < q implies after[j].0 != other by {
                    assert(after[j] == entries[j]);
                }
                assert(first_at(after, other, q));
                lemma_first_is_position(after, other, q);
            } else {
                if contains_key(after, other) {
                    let i = choose|i: int| 0 <= i < after.len() && after[i].0 == other;
                    assert(i < p);
                    assert(entries[i].0 == other);
                }
            }
        }
        assert forall|other: Seq<char>|
            contains_key(after, other) <==> (other == key || contains_key(entries, other)) by {
            if contains_key(after, other) {
                let i = choose|i: int| 0 <= i < after.len() && after[i].0 == other;
                if i < p {
                    assert(entries[i].0 == other);
                }
            }
            if contains_key(entries, other) {
                let i = choose|i: int| 0 <= i < entries.len() && entries[i].0 == other;
                assert(after[i].0 == other);
            }
        }
    }
}

/// Two lists with the same keys at the same places, and the same values but
/// at place `p`, hold the same under every key that does not stand at `p`.
pub proof fn lemma_same_keys_lookup<T>(
    a: Seq<(Seq<char>, T)>,
    b: Seq<(Seq<char>, T)>,
    key: Seq<char>,
    p: int,
)
    requires
        a.len() == b.len(),
        0 <= p < a.len(),
        forall|i: int| 0 <= i < a.len() ==> a[i].0 == b[i].0,
        forall|i: int| 0 <= i < a.len() && i != p ==> a[i].1 == b[i].1,
        a[p].0 != key,
    ensures
        lookup(a, key) == lookup(b, key),
{
    if contains_key(a, key) {
        lemma_position(a, key);
        let q = position(a, key);
        assert(b[q].0 == key);
        assert(first_at(b, key, q));
        lemma_first_is_position(b, key, q);
    } else {
        if contains_key(b, key) {
            let i = choose|i: int| 0 <= i < b.len() && b[i].0 == key;
            assert(a[i].0 == key);
        }
    }
}

/// Removing a key keeps the keys distinct, makes the key absent, and leaves
/// what every other key holds.
pub proof fn lemma_without<T>(entries: Seq<(Seq<char>, T)>, key: Seq<char>)
    requires
        distinct_keys(entries),
    ensures
        distinct_keys(without(entries, key)),
        !contains_key(without(entries, key), key),
        forall|other: Seq<char>|
            other != key ==> lookup(without(entries, key), other) == lookup(entries, other),
{
    let after = without(entries, key);
    if contains_key(entries, key) {
        lemma_position(entries, key);
        let p = position(entries, key);
        assert forall|i: int, j: int|
            0 <= i < after.len() && 0 <= j < after.len() && i != j implies after[i].0
            != after[j].0 by {
            let si = if i < p { i } else { i + 1 };
            let sj = if j < p { j } else { j + 1 };
            assert(after[i] == entries[si]);
            assert(after[j] == entries[sj]);
        }
        if contains_key(after, key) {
            let i = choose|i: int| 0 <= i < after.len() && after[i].0 == key;
            let si = if i < p { i } else { i + 1 };
            assert(after[i] == entries[si]);
        }
        assert forall|other: Seq<char>| other != key implies lookup(after, other) == lookup(
            entries,
            other,
        ) by {
            if contains_key(entries, other) {
                lemma_position(entries, other);
                let q = position(entries, other);
                let t = if q < p { q } else { q - 1 };
                assert(after[t] == entries[q]);
                assert forall|j: int| 0 <= j < t implies after[j].0 != other by {
                    let sj = if j < p { j } else { j + 1 };
                    assert(after[j] == entries[sj]);
                }
                assert(first_at(after, other, t));
                lemma_first_is_position(after, other, t);
            } else {
                if contains_key(after, other) {
                    let i = choose|i: int| 0 <= i < after.len() && after[i].0 == other;
                    let si = if i < p { i } else { i + 1 };
                    assert(after[i] == entries[si]);
                    assert(entries[si].0 == other);
                }
            }
        }
    }
}

/// The views of the entries of a list, in the same order.
pub open spec fn entry_views<V: View>(entries: Seq<(String, V)>) -> Seq<(Seq<char>, V::V)> {
    Seq::new(entries.len(), |i: int| (entries[i].0@, entries[i].1@))
}

/// The view of a value that may be absent.
pub open spec fn option_view<V: View>(value: Option<V>) -> Option<V::V> {
    match value {
        Some(v) => Some(v@),
        None => None,
    }
}

/// The position of the first entry of `entries` whose key is `key`.
pub fn find<V>(entries: &Vec<(String, V)>, key: &str) -> (found: Option<usize>)
    ensures
        match found {
            Some(i) => i < entries.len() && entries@[i as int].0@ == key@ && forall|j: int|
                0 <= j < i ==> entries@[j].0@ != key@,
            None => forall|j: int| 0 <= j < entries.len() ==> entries@[j].0@ != key@,
        },
{
    let mut i: usize = 0;
    while i < entries.len()
        invariant
            i <= entries.len(),
            forall|j: int| 0 <= j < i ==> entries@[j].0@ != key@,
        decreases entries.len() - i,
    {
        if entries[i].0.as_str().eq(key) {
            return Some(i);
        }
        i = i + 1;
    }
    None
}

/// Whether `entries` holds the key `key`.
pub fn has_entry<V: View>(entries: &Vec<(String, V)>, key: &str) -> (held: bool)
    ensures
        held == contains_key(entry_views(entries@), key@),
{
    let found = find(entries, key);
    proof {
        let views = entry_views(entries@);
        match found {
            Some(i) => {
                assert(views[i as int].0 == key@);
            },
            None => {
                if contains_key(views, key@) {
                    let j = choose|j: int| 0 <= j < views.len() && views[j].0 == key@;
                    assert(entries@[j].0@ == key@);
                }
            },
        }
    }
    found.is_some()
}

/// The value that `entries` holds under `key`, if it holds the key.
pub fn get_entry<'a, V: View>(entries: &'a Vec<(String, V)>, key: &str) -> (value: Option<&'a V>)
    ensures
        match value {
            Some(v) => lookup(entry_views(entries@), key@) == Some(v@),
            None => lookup(entry_views(entries@), key@) is None,
        },
{
    let found = find(entries, key);
    proof {
        let views = entry_views(entries@);
        match found {
            Some(i) => {
                assert(views[i as int].0 == key@);
                assert forall|j: int| 0 <= j < i implies views[j].0 != key@ by {
                    assert(entries@[j].0@ != key@);
                }
                assert(first_at(views, key@, i as int));
                lemma_first_is_position(views, key@, i as int);
            },
            None => {
                if contains_key(views, key@) {
                    let j = choose|j: int| 0 <= j < views.len() && views[j].0 == key@;
                    assert(entries@[j].0@ == key@);
                }
            },
        }
    }
    match found {
        Some(i) => Some(&entries[i].1),
        None => None,
    }
}

/// Puts `value` under `key`: in the place of the entry with that key, or at
/// the end where there is none.
pub fn set_entry<V: View>(entries: &mut Vec<(String, V)>, key: String, value: V)
    ensures
        entry_views(final(entries)@) == upsert(entry_views(old(entries)@), key@, value@),
        distinct_keys(entry_views(old(entries)@)) ==> distinct_keys(entry_views(final(entries)@)),
{
    let ghost before = entry_views(entries@);
    let ghost key_view = key@;
    let ghost value_view = value@;
    let found = find(entries, key.as_str());
    match found {
        Some(i) => {
            proof {
                assert(before[i as int].0 == key_view);
                assert forall|j: int| 0 <= j < i implies before[j].0 != key_view by {
                    assert(entries@[j].0@ != key_view);
                }
                assert(first_at(before, key_view, i as int));
                lemma_first_is_position(before, key_view, i as int);
            }
            entries.set(i, (key, value));
            proof {
                assert(entry_views(entries@) =~= before.update(i as int, (key_view, value_view)));
            }
        },
        None => {
            entries.push((key, value));
            proof {
                assert(entry_views(entries@) =~= before.push((key_view, value_view)));
            }
        },
    }
}

/// Takes the entry with the key `key` out of `entries` and returns its value.
pub fn remove_entry<V: View>(entries: &mut Vec<(String, V)>, key: &str) -> (removed: Option<V>)
    ensures
        entry_views(final(entries)@) == without(entry_views(old(entries)@), key@),
        option_view(removed) == lookup(entry_views(old(entries)@), key@),
        distinct_keys(entry_views(old(entries)@)) ==> distinct_keys(entry_views(final(entries)@)),
{
    let ghost before = entry_views(entries@);
    let found = find(entries, key);
    match found {
        Some(i) => {
            proof {
                assert(before[i as int].0 == key@);
                assert forall|j: int| 0 <= j < i implies before[j].0 != key@ by {
                    assert(entries@[j].0@ != key@);
                }
                assert(first_at(before, key@, i as int));
                lemma_first_is_position(before, key@, i as int);
            }
            let entry = entries.remove(i);
            Some(entry.1)
        },
        None => {
            None
        },
    }
}

} // verus!
