//! Sequences of distinct keys, and the tables that a sequence of keys stands
//! for together with a sequence of values of the same length.

use vstd::prelude::*;

verus! {

/// The table that pairs each key with the value at the same position.
pub open spec fn keyed_map<K, V>(keys: Seq<K>, values: Seq<V>) -> Map<K, V> {
    Map::new(|key: K| keys.contains(key), |key: K| values[keys.index_of(key)])
}

/// Adding a key that is not yet there keeps the keys distinct and changes the
/// membership of no other key.
pub proof fn distinct_after_push<K>(keys: Seq<K>, key: K)
    requires
        keys.no_duplicates(),
        !keys.contains(key),
    ensures
        keys.push(key).no_duplicates(),
        keys.push(key).contains(key),
        forall|other: K|
            other != key ==> (#[trigger] keys.push(key).contains(other) <==> keys.contains(other)),
{
    let after = keys.push(key);
    assert(after[keys.len() as int] == key);
    assert forall|other: K| other != key implies (#[trigger] after.contains(other)
        <==> keys.contains(other)) by {
        if keys.contains(other) {
            let i = keys.index_of(other);
            assert(after[i] == other);
        }
    }
}

/// Taking out the key at one position keeps the others distinct, ends the
/// membership of that key and changes the membership of no other key.
pub proof fn distinct_after_remove<K>(keys: Seq<K>, at: int)
    requires
        keys.no_duplicates(),
        0 <= at < keys.len(),
    ensures
        keys.remove(at).no_duplicates(),
        keys.index_of(keys[at]) == at,
        !keys.remove(at).contains(keys[at]),
        forall|other: K|
            other != keys[at] ==> (#[trigger] keys.remove(at).contains(other) <==> keys.contains(
                other,
            )),
{
    let after = keys.remove(at);
    let key = keys[at];
    keys.remove_ensures(at);
    assert forall|other: K| other != key implies (#[trigger] after.contains(other)
        <==> keys.contains(other)) by {
        if keys.contains(other) {
            let i = keys.index_of(other);
            if i < at {
                assert(after[i] == other);
            } else {
                assert(after[i - 1] == other);
            }
        }
        if after.contains(other) {
            let j = after.index_of(other);
            if j < at {
                assert(keys[j] == other);
            } else {
                assert(keys[j + 1] == other);
            }
        }
    }
    if after.contains(key) {
        let j = after.index_of(key);
        if j < at {
            assert(keys[j] == key);
        } else {
            assert(keys[j + 1] == key);
        }
    }
}

/// Each key is paired with the value at its own position.
pub proof fn keyed_lookup<K, V>(keys: Seq<K>, values: Seq<V>, i: int)
    requires
        keys.no_duplicates(),
        keys.len() == values.len(),
        0 <= i < keys.len(),
    ensures
        keyed_map(keys, values).contains_key(keys[i]),
        keyed_map(keys, values)[keys[i]] == values[i],
        keys.index_of(keys[i]) == i,
{
    assert(keys.contains(keys[i]));
}

/// Appending a new key with its value adds that pair to the table.
pub proof fn keyed_push<K, V>(keys: Seq<K>, values: Seq<V>, key: K, value: V)
    requires
        keys.no_duplicates(),
        keys.len() == values.len(),
        !keys.contains(key),
    ensures
        keys.push(key).no_duplicates(),
        keyed_map(keys.push(key), values.push(value)) == keyed_map(keys, values).insert(
            key,
            value,
        ),
{
    let keys_after = keys.push(key);
    let values_after = values.push(value);
    distinct_after_push(keys, key);
    assert forall|name: K| keys_after.contains(name) implies keyed_map(
        keys_after,
        values_after,
    )[name] == keyed_map(keys, values).insert(key, value)[name] by {
        let i = keys_after.index_of(name);
        keyed_lookup(keys_after, values_after, i);
        if i < keys.len() {
            keyed_lookup(keys, values, i);
        }
    }
    assert(keyed_map(keys_after, values_after) =~= keyed_map(keys, values).insert(key, value));
}

/// Replacing the value at the position of a key replaces its value in the
/// table.
pub proof fn keyed_update<K, V>(keys: Seq<K>, values: Seq<V>, i: int, value: V)
    requires
        keys.no_duplicates(),
        keys.len() == values.len(),
        0 <= i < keys.len(),
    ensures
        keyed_map(keys, values.update(i, value)) == keyed_map(keys, values).insert(keys[i], value),
{
    let values_after = values.update(i, value);
    keyed_lookup(keys, values, i);
    assert forall|name: K| keys.contains(name) implies keyed_map(keys, values_after)[name]
        == keyed_map(keys, values).insert(keys[i], value)[name] by {
        let j = keys.index_of(name);
        keyed_lookup(keys, values_after, j);
        keyed_lookup(keys, values, j);
    }
    assert(keyed_map(keys, values_after) =~= keyed_map(keys, values).insert(keys[i], value));
}

/// Taking out the key and the value at one position deletes that key from
/// the table.
pub proof fn keyed_remove<K, V>(keys: Seq<K>, values: Seq<V>, i: int)
    requires
        keys.no_duplicates(),
        keys.len() == values.len(),
        0 <= i < keys.len(),
    ensures
        keys.remove(i).no_duplicates(),
        keyed_map(keys.remove(i), values.remove(i)) == keyed_map(keys, values).remove(keys[i]),
{
    let keys_after = keys.remove(i);
    let values_after = values.remove(i);
    distinct_after_remove(keys, i);
    keys.remove_ensures(i);
    values.remove_ensures(i);
    assert forall|name: K| keys_after.contains(name) implies keyed_map(
        keys_after,
        values_after,
    )[name] == keyed_map(keys, values)[name] by {
        let j = keys_after.index_of(name);
        keyed_lookup(keys_after, values_after, j);
        if j < i {
            keyed_lookup(keys, values, j);
        } else {
            keyed_lookup(keys, values, j + 1);
        }
    }
    assert(keyed_map(keys_after, values_after) =~= keyed_map(keys, values).remove(keys[i]));
}

} // verus!
