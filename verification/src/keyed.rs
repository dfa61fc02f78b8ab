//! Maps kept as sequences of entries with distinct keys: the bus keeps its
//! channels this way (keyed by id) and a component core its connection table
//! (keyed by the left port).

use vstd::prelude::*;

verus! {

/// No two entries have the same key.
pub open spec fn keys_distinct<A, K>(entries: Seq<A>, key: spec_fn(A) -> K) -> bool {
    forall|i: int, j: int|
        0 <= i < entries.len() && 0 <= j < entries.len() && i != j ==> key(#[trigger] entries[i])
            != key(#[trigger] entries[j])
}

/// The entries as a map from each entry's key to the entry's value.
pub open spec fn keyed_map<A, K, V>(entries: Seq<A>, key: spec_fn(A) -> K, value: spec_fn(A) -> V) -> Map<K, V> {
    Map::new(
        |k: K| exists|i: int| 0 <= i < entries.len() && key(#[trigger] entries[i]) == k,
        |k: K|
            value(entries[choose|i: int| 0 <= i < entries.len() && key(#[trigger] entries[i]) == k]),
    )
}

/// With distinct keys, the map sends each entry's key to that entry's value.
pub proof fn lemma_keyed_map_at<A, K, V>(
    entries: Seq<A>,
    key: spec_fn(A) -> K,
    value: spec_fn(A) -> V,
    i: int,
)
    requires
        keys_distinct(entries, key),
        0 <= i < entries.len(),
    ensures
        keyed_map(entries, key, value).contains_key(key(entries[i])),
        keyed_map(entries, key, value)[key(entries[i])] == value(entries[i]),
{
    let k = key(entries[i]);
    assert(keyed_map(entries, key, value).dom().contains(k));
    let j = choose|j: int| 0 <= j < entries.len() && key(#[trigger] entries[j]) == k;
    assert(key(entries[j]) == key(entries[i]));
}

/// A key absent from the map belongs to no entry.
pub proof fn lemma_keyed_map_absent<A, K, V>(
    entries: Seq<A>,
    key: spec_fn(A) -> K,
    value: spec_fn(A) -> V,
    k: K,
    i: int,
)
    requires
        !keyed_map(entries, key, value).contains_key(k),
        0 <= i < entries.len(),
    ensures
        key(entries[i]) != k,
{
}

/// Replacing an entry by one with the same key changes the map at that key
/// only.
pub proof fn lemma_keyed_map_update<A, K, V>(
    entries: Seq<A>,
    key: spec_fn(A) -> K,
    value: spec_fn(A) -> V,
    i: int,
    entry: A,
)
    requires
        keys_distinct(entries, key),
        0 <= i < entries.len(),
        key(entry) == key(entries[i]),
    ensures
        keys_distinct(entries.update(i, entry), key),
        keyed_map(entries.update(i, entry), key, value) == keyed_map(entries, key, value).insert(
            key(entry),
            value(entry),
        ),
{
    let updated = entries.update(i, entry);
    assert forall|a: int, b: int|
        0 <= a < updated.len() && 0 <= b < updated.len() && a != b implies key(
        #[trigger] updated[a],
    ) != key(#[trigger] updated[b]) by {
        if a != i {
            assert(updated[a] == entries[a]);
        }
        if b != i {
            assert(updated[b] == entries[b]);
        }
    }
    let m1 = keyed_map(updated, key, value);
    let m2 = keyed_map(entries, key, value).insert(key(entry), value(entry));
    assert forall|k: K| m1.contains_key(k) <==> m2.contains_key(k) by {
        if m2.contains_key(k) && k != key(entry) {
            let j = choose|j: int| 0 <= j < entries.len() && key(#[trigger] entries[j]) == k;
            assert(updated[j] == entries[j]);
        }
        if m1.contains_key(k) {
            let j = choose|j: int| 0 <= j < updated.len() && key(#[trigger] updated[j]) == k;
            if j != i {
                assert(updated[j] == entries[j]);
            }
        }
        if k == key(entry) {
            assert(updated[i] == entry);
        }
    }
    assert forall|k: K| m1.contains_key(k) implies m1[k] == m2[k] by {
        let j = choose|j: int| 0 <= j < updated.len() && key(#[trigger] updated[j]) == k;
        lemma_keyed_map_at(updated, key, value, j);
        if j == i {
            assert(updated[j] == entry);
        } else {
            assert(updated[j] == entries[j]);
            lemma_keyed_map_at(entries, key, value, j);
        }
    }
    assert(m1 =~= m2);
}

/// Appending an entry with a new key adds that key to the map.
pub proof fn lemma_keyed_map_push<A, K, V>(
    entries: Seq<A>,
    key: spec_fn(A) -> K,
    value: spec_fn(A) -> V,
    entry: A,
)
    requires
        keys_distinct(entries, key),
        !keyed_map(entries, key, value).contains_key(key(entry)),
    ensures
        keys_distinct(entries.push(entry), key),
        keyed_map(entries.push(entry), key, value) == keyed_map(entries, key, value).insert(
            key(entry),
            value(entry),
        ),
{
    let pushed = entries.push(entry);
    let n = entries.len() as int;
    assert forall|a: int, b: int|
        0 <= a < pushed.len() && 0 <= b < pushed.len() && a != b implies key(
        #[trigger] pushed[a],
    ) != key(#[trigger] pushed[b]) by {
        if a < n {
            assert(pushed[a] == entries[a]);
        }
        if b < n {
            assert(pushed[b] == entries[b]);
        }
        if a == n {
            lemma_keyed_map_absent(entries, key, value, key(entry), b);
        }
        if b == n {
            lemma_keyed_map_absent(entries, key, value, key(entry), a);
        }
    }
    let m1 = keyed_map(pushed, key, value);
    let m2 = keyed_map(entries, key, value).insert(key(entry), value(entry));
    assert forall|k: K| m1.contains_key(k) <==> m2.contains_key(k) by {
        if m2.contains_key(k) && k != key(entry) {
            let j = choose|j: int| 0 <= j < entries.len() && key(#[trigger] entries[j]) == k;
            assert(pushed[j] == entries[j]);
        }
        if m1.contains_key(k) {
            let j = choose|j: int| 0 <= j < pushed.len() && key(#[trigger] pushed[j]) == k;
            if j < n {
                assert(pushed[j] == entries[j]);
            }
        }
        if k == key(entry) {
            assert(pushed[n] == entry);
        }
    }
    assert forall|k: K| m1.contains_key(k) implies m1[k] == m2[k] by {
        let j = choose|j: int| 0 <= j < pushed.len() && key(#[trigger] pushed[j]) == k;
        lemma_keyed_map_at(pushed, key, value, j);
        if j == n {
            assert(pushed[j] == entry);
        } else {
            assert(pushed[j] == entries[j]);
            lemma_keyed_map_at(entries, key, value, j);
        }
    }
    assert(m1 =~= m2);
}

} // verus!
