//! Lists read as maps. A store keeps its entries in a list, in no particular
//! order and each under a key of its own; what it stands for is the map from
//! each key to the value of its entry.

use vstd::prelude::*;

verus! {

/// Whether some entry of `items` has the key `key`.
pub open spec fn has_key<T, K>(items: Seq<T>, key_of: spec_fn(T) -> K, key: K) -> bool {
    exists|i: int| 0 <= i < items.len() && key_of(#[trigger] items[i]) == key
}

/// The position of the entry with the key `key`.
pub open spec fn position<T, K>(items: Seq<T>, key_of: spec_fn(T) -> K, key: K) -> int {
    choose|i: int| 0 <= i < items.len() && key_of(#[trigger] items[i]) == key
}

/// No two entries of `items` share a key.
pub open spec fn distinct_keys<T, K>(items: Seq<T>, key_of: spec_fn(T) -> K) -> bool {
    forall|i: int, j: int|
        0 <= i < items.len() && 0 <= j < items.len() && i != j ==> key_of(#[trigger] items[i])
            != key_of(#[trigger] items[j])
}

/// The map that a list with distinct keys stands for.
pub open spec fn keyed<T, K, V>(
    items: Seq<T>,
    key_of: spec_fn(T) -> K,
    value_of: spec_fn(T) -> V,
) -> Map<K, V> {
    Map::new(
        |key: K| has_key(items, key_of, key),
        |key: K| value_of(items[position(items, key_of, key)]),
    )
}

/// Each entry of a list with distinct keys is what the map holds under its
/// key.
pub proof fn lemma_entry<T, K, V>(
    items: Seq<T>,
    key_of: spec_fn(T) -> K,
    value_of: spec_fn(T) -> V,
    i: int,
)
    requires
        distinct_keys(items, key_of),
        0 <= i < items.len(),
    ensures
        has_key(items, key_of, key_of(items[i])),
        position(items, key_of, key_of(items[i])) == i,
        keyed(items, key_of, value_of).contains_key(key_of(items[i])),
        keyed(items, key_of, value_of)[key_of(items[i])] == value_of(items[i]),
{
}

/// A key of the map is the key of the entry at its position.
pub proof fn lemma_position<T, K>(items: Seq<T>, key_of: spec_fn(T) -> K, key: K)
    requires
        has_key(items, key_of, key),
    ensures
        0 <= position(items, key_of, key) < items.len(),
        key_of(items[position(items, key_of, key)]) == key,
{
}

/// Appending an entry with a new key inserts it into the map.
pub proof fn lemma_push<T, K, V>(
    items: Seq<T>,
    key_of: spec_fn(T) -> K,
    value_of: spec_fn(T) -> V,
    item: T,
)
    requires
        distinct_keys(items, key_of),
        !has_key(items, key_of, key_of(item)),
    ensures
        distinct_keys(items.push(item), key_of),
        keyed(items.push(item), key_of, value_of) == keyed(items, key_of, value_of).insert(
            key_of(item),
            value_of(item),
        ),
{
    let after = items.push(item);
    assert forall|key: K|
        has_key(after, key_of, key) <==> (key == key_of(item) || has_key(items, key_of, key)) by {
        if key == key_of(item) {
            assert(key_of(after[items.len() as int]) == key);
        }
        if has_key(items, key_of, key) {
            assert(key_of(after[position(items, key_of, key)]) == key);
        }
    }
    assert forall|key: K| has_key(after, key_of, key) implies #[trigger] keyed(
        after,
        key_of,
        value_of,
    )[key] == keyed(items, key_of, value_of).insert(key_of(item), value_of(item))[key] by {
        let p = position(after, key_of, key);
        lemma_entry(after, key_of, value_of, p);
        if p < items.len() {
            lemma_entry(items, key_of, value_of, p);
        }
    }
    assert(keyed(after, key_of, value_of) =~= keyed(items, key_of, value_of).insert(
        key_of(item),
        value_of(item),
    ));
}

/// Replacing an entry by one with the same key replaces it in the map.
pub proof fn lemma_update<T, K, V>(
    items: Seq<T>,
    key_of: spec_fn(T) -> K,
    value_of: spec_fn(T) -> V,
    i: int,
    item: T,
)
    requires
        distinct_keys(items, key_of),
        0 <= i < items.len(),
        key_of(item) == key_of(items[i]),
    ensures
        distinct_keys(items.update(i, item), key_of),
        keyed(items.update(i, item), key_of, value_of) == keyed(items, key_of, value_of).insert(
            key_of(item),
            value_of(item),
        ),
{
    let after = items.update(i, item);
    assert forall|key: K| has_key(after, key_of, key) <==> has_key(items, key_of, key) by {
        if has_key(items, key_of, key) {
            assert(key_of(after[position(items, key_of, key)]) == key);
        }
    }
    lemma_entry(items, key_of, value_of, i);
    assert forall|key: K| has_key(after, key_of, key) implies #[trigger] keyed(
        after,
        key_of,
        value_of,
    )[key] == keyed(items, key_of, value_of).insert(key_of(item), value_of(item))[key] by {
        let p = position(after, key_of, key);
        lemma_entry(after, key_of, value_of, p);
        lemma_entry(items, key_of, value_of, p);
    }
    assert(keyed(after, key_of, value_of) =~= keyed(items, key_of, value_of).insert(
        key_of(item),
        value_of(item),
    ));
}

} // verus!
