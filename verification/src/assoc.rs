//! How a list of distinct keys with a value each stands for a map.

use vstd::prelude::*;

verus! {

/// Keys and values line up and no key occurs twice.
pub open spec fn well_keyed<K, V>(keys: Seq<K>, vals: Seq<V>) -> bool {
    keys.len() == vals.len() && keys.no_duplicates()
}

/// The map that sends each key to the value at the key's position.
pub open spec fn as_map<K, V>(keys: Seq<K>, vals: Seq<V>) -> Map<K, V> {
    Map::new(|k: K| keys.contains(k), |k: K| vals[keys.index_of(k)])
}

/// The entry at position `i` is the map's entry for the key at `i`.
pub proof fn lemma_entry<K, V>(keys: Seq<K>, vals: Seq<V>, i: int)
    requires
        well_keyed(keys, vals),
        0 <= i < keys.len(),
    ensures
        as_map(keys, vals).contains_key(keys[i]),
        as_map(keys, vals)[keys[i]] == vals[i],
        keys.index_of(keys[i]) == i,
{
    assert(keys.contains(keys[i]));
    let j = keys.index_of(keys[i]);
    assert(0 <= j < keys.len() && keys[j] == keys[i]);
}

/// No keys stand for the empty map.
pub proof fn lemma_empty<K, V>()
    ensures
        as_map(Seq::<K>::empty(), Seq::<V>::empty()) == Map::<K, V>::empty(),
        well_keyed(Seq::<K>::empty(), Seq::<V>::empty()),
{
    assert(as_map(Seq::<K>::empty(), Seq::<V>::empty()) =~= Map::<K, V>::empty());
}

/// Replacing the value at position `i` replaces the entry of the key at `i`.
pub proof fn lemma_update<K, V>(keys: Seq<K>, vals: Seq<V>, i: int, v: V)
    requires
        well_keyed(keys, vals),
        0 <= i < keys.len(),
    ensures
        well_keyed(keys, vals.update(i, v)),
        as_map(keys, vals.update(i, v)) == as_map(keys, vals).insert(keys[i], v),
{
    let before = as_map(keys, vals);
    let after = as_map(keys, vals.update(i, v));
    assert forall|k: K| after.contains_key(k) implies #[trigger] after[k] == before.insert(
        keys[i],
        v,
    )[k] by {
        let j = keys.index_of(k);
        assert(0 <= j < keys.len() && keys[j] == k);
    }
    assert(keys.contains(keys[i]));
    assert(after =~= before.insert(keys[i], v));
}

/// Appending a fresh key with a value adds that entry.
pub proof fn lemma_push<K, V>(keys: Seq<K>, vals: Seq<V>, k: K, v: V)
    requires
        well_keyed(keys, vals),
        !keys.contains(k),
    ensures
        well_keyed(keys.push(k), vals.push(v)),
        as_map(keys.push(k), vals.push(v)) == as_map(keys, vals).insert(k, v),
{
    let keys2 = keys.push(k);
    let vals2 = vals.push(v);
    assert(keys2.no_duplicates()) by {
        assert forall|i: int, j: int|
            0 <= i < keys2.len() && 0 <= j < keys2.len() && i != j implies keys2[i] != keys2[j] by {
            if i < keys.len() {
                assert(keys.contains(keys[i]));
            }
            if j < keys.len() {
                assert(keys.contains(keys[j]));
            }
        }
    }
    let before = as_map(keys, vals);
    let after = as_map(keys2, vals2);
    assert(keys2[keys.len() as int] == k);
    assert forall|x: K| after.contains_key(x) <==> before.insert(k, v).contains_key(x) by {
        if keys2.contains(x) {
            let j = keys2.index_of(x);
            assert(0 <= j < keys2.len() && keys2[j] == x);
            if j < keys.len() {
                assert(keys[j] == x);
            }
        }
        if keys.contains(x) {
            let j = keys.index_of(x);
            assert(0 <= j < keys.len() && keys[j] == x);
            assert(keys2[j] == x);
        }
    }
    assert forall|x: K| after.contains_key(x) implies #[trigger] after[x] == before.insert(k, v)[x] by {
        let j = keys2.index_of(x);
        assert(0 <= j < keys2.len() && keys2[j] == x);
        if j < keys.len() {
            assert(keys[j] == x);
            lemma_entry(keys, vals, j);
        }
    }
    assert(after =~= before.insert(k, v));
}

/// Taking out position `i` takes out the entry of the key at `i`.
pub proof fn lemma_remove<K, V>(keys: Seq<K>, vals: Seq<V>, i: int)
    requires
        well_keyed(keys, vals),
        0 <= i < keys.len(),
    ensures
        well_keyed(keys.remove(i), vals.remove(i)),
        as_map(keys.remove(i), vals.remove(i)) == as_map(keys, vals).remove(keys[i]),
{
    let keys2 = keys.remove(i);
    let vals2 = vals.remove(i);
    assert forall|a: int, b: int|
        0 <= a < keys2.len() && 0 <= b < keys2.len() && a != b implies keys2[a] != keys2[b] by {
        let a0 = if a < i { a } else { a + 1 };
        let b0 = if b < i { b } else { b + 1 };
        assert(keys2[a] == keys[a0] && keys2[b] == keys[b0]);
    }
    let before = as_map(keys, vals);
    let after = as_map(keys2, vals2);
    assert forall|x: K| after.contains_key(x) <==> before.remove(keys[i]).contains_key(x) by {
        if keys2.contains(x) {
            let j = keys2.index_of(x);
            assert(0 <= j < keys2.len() && keys2[j] == x);
            let j0 = if j < i { j } else { j + 1 };
            assert(keys[j0] == x);
        }
        if keys.contains(x) && x != keys[i] {
            let j = keys.index_of(x);
            assert(0 <= j < keys.len() && keys[j] == x);
            let j2 = if j < i { j } else { j - 1 };
            assert(keys2[j2] == x);
        }
    }
    assert forall|x: K| after.contains_key(x) implies #[trigger] after[x] == before.remove(
        keys[i],
    )[x] by {
        let j = keys2.index_of(x);
        assert(0 <= j < keys2.len() && keys2[j] == x);
        let j0 = if j < i { j } else { j + 1 };
        assert(keys[j0] == x);
        lemma_entry(keys, vals, j0);
        assert(vals2[j] == vals[j0]);
    }
    assert(after =~= before.remove(keys[i]));
}

} // verus!
