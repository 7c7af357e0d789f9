//! An owned key-value store: a vector of entries searched by key.
//!
//! The engine owns its store outright and passes it into every operation;
//! there is no ambient state. Lookups find the first entry with the given
//! key; updates overwrite that entry, and a fresh key is appended, so no
//! key ever occurs twice.

use vstd::prelude::*;

verus! {

/// The value under `key`: the first entry that carries it, if any.
pub open spec fn lookup<V>(entries: Seq<(u64, V)>, key: u64) -> Option<V>
    decreases entries.len(),
{
    if entries.len() == 0 {
        None
    } else if entries[0].0 == key {
        Some(entries[0].1)
    } else {
        lookup(entries.drop_first(), key)
    }
}

/// Entries before a non-matching prefix do not affect a lookup: skipping
/// one leading entry whose key differs changes nothing.
proof fn lemma_lookup_skip_one<V>(entries: Seq<(u64, V)>, key: u64, i: int)
    requires
        0 <= i < entries.len(),
        entries[i].0 != key,
    ensures
        lookup(entries.skip(i), key) == lookup(entries.skip(i + 1), key),
{
    assert(entries.skip(i)[0] == entries[i]);
    assert(entries.skip(i).drop_first() =~= entries.skip(i + 1));
}

/// Overwriting the first entry that carries `key` changes the lookup of
/// `key` to the new value and of no other key.
proof fn lemma_lookup_update<V>(entries: Seq<(u64, V)>, key: u64, value: V, i: int)
    requires
        0 <= i < entries.len(),
        entries[i].0 == key,
        forall|j: int| 0 <= j < i ==> (#[trigger] entries[j]).0 != key,
    ensures
        lookup(entries.update(i, (key, value)), key) == Some(value),
        forall|k: u64| k != key ==> lookup(entries.update(i, (key, value)), k) == lookup(
            entries,
            k,
        ),
    decreases i,
{
    let updated = entries.update(i, (key, value));
    if i == 0 {
        assert(updated[0] == (key, value));
        assert(updated.drop_first() =~= entries.drop_first());
        assert forall|k: u64| k != key implies lookup(updated, k) == lookup(entries, k) by {
            assert(lookup(updated, k) == lookup(updated.drop_first(), k));
            assert(lookup(entries, k) == lookup(entries.drop_first(), k));
        }
    } else {
        assert(updated[0] == entries[0]);
        assert(updated.drop_first() =~= entries.drop_first().update(i - 1, (key, value)));
        lemma_lookup_update(entries.drop_first(), key, value, i - 1);
        assert forall|k: u64| k != key implies lookup(updated, k) == lookup(entries, k) by {
            if entries[0].0 != k {
                assert(lookup(updated, k) == lookup(updated.drop_first(), k));
                assert(lookup(entries, k) == lookup(entries.drop_first(), k));
            }
        }
    }
}

/// Appending an entry with a key not yet present makes that key found and
/// leaves every other key's lookup as it was.
proof fn lemma_lookup_push<V>(entries: Seq<(u64, V)>, key: u64, value: V)
    ensures
        lookup(entries, key) is None ==> lookup(entries.push((key, value)), key) == Some(value),
        forall|k: u64| k != key ==> lookup(entries.push((key, value)), k) == lookup(entries, k),
    decreases entries.len(),
{
    let pushed = entries.push((key, value));
    if entries.len() == 0 {
        assert(pushed[0] == (key, value));
        assert(pushed.drop_first() =~= Seq::<(u64, V)>::empty());
        assert forall|k: u64| k != key implies lookup(pushed, k) == lookup(entries, k) by {
            assert(lookup(pushed, k) == lookup(pushed.drop_first(), k));
        }
    } else {
        assert(pushed[0] == entries[0]);
        assert(pushed.drop_first() =~= entries.drop_first().push((key, value)));
        lemma_lookup_push(entries.drop_first(), key, value);
        assert forall|k: u64| k != key implies lookup(pushed, k) == lookup(entries, k) by {
            if entries[0].0 != k {
                assert(lookup(pushed, k) == lookup(pushed.drop_first(), k));
                assert(lookup(entries, k) == lookup(entries.drop_first(), k));
            }
        }
    }
}

/// The index of the first entry that carries `key`, if any; `None` tells
/// that the key is absent.
fn find_index<V>(entries: &Vec<(u64, V)>, key: u64) -> (r: Option<usize>)
    ensures
        match r {
            Some(i) => i < entries@.len() && entries@[i as int].0 == key && lookup(
                entries@,
                key,
            ) == Some(entries@[i as int].1) && forall|j: int|
                0 <= j < i ==> (#[trigger] entries@[j]).0 != key,
            None => lookup(entries@, key) is None,
        },
{
    let mut i: usize = 0;
    proof {
        assert(entries@.skip(0) =~= entries@);
    }
    while i < entries.len()
        invariant
            i <= entries@.len(),
            lookup(entries@, key) == lookup(entries@.skip(i as int), key),
            forall|j: int| 0 <= j < i ==> (#[trigger] entries@[j]).0 != key,
        decreases entries@.len() - i,
    {
        if entries[i].0 == key {
            proof {
                assert(entries@.skip(i as int)[0] == entries@[i as int]);
            }
            return Some(i);
        }
        proof {
            lemma_lookup_skip_one(entries@, key, i as int);
        }
        i = i + 1;
    }
    proof {
        assert(entries@.skip(entries@.len() as int) =~= Seq::<(u64, V)>::empty());
    }
    None
}

/// The value stored under `key`, if any.
pub fn map_get<V: Copy>(entries: &Vec<(u64, V)>, key: u64) -> (r: Option<V>)
    ensures
        r == lookup(entries@, key),
{
    match find_index(entries, key) {
        Some(i) => Some(entries[i].1),
        None => None,
    }
}

/// Binds `key` to `value`: the entry that carries the key is overwritten,
/// or a new entry is appended. Every other key keeps its value.
pub fn map_put<V>(entries: &mut Vec<(u64, V)>, key: u64, value: V)
    ensures
        lookup(final(entries)@, key) == Some(value),
        forall|k: u64| k != key ==> lookup(final(entries)@, k) == lookup(old(entries)@, k),
{
    match find_index(entries, key) {
        Some(i) => {
            proof {
                lemma_lookup_update(entries@, key, value, i as int);
            }
            entries[i] = (key, value);
        },
        None => {
            proof {
                lemma_lookup_push(entries@, key, value);
            }
            entries.push((key, value));
        },
    }
}

} // verus!
