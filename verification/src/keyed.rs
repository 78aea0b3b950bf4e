//! Lists of values under distinct text keys, and the maps they stand for.

use vstd::prelude::*;

verus! {

/// The key of the pair at `i`.
pub open spec fn key_at<V>(pairs: Seq<(Seq<char>, V)>, i: int) -> Seq<char> {
    pairs[i].0
}

/// No key stands in two pairs.
pub open spec fn distinct_keys<V>(pairs: Seq<(Seq<char>, V)>) -> bool {
    forall|i: int, j: int|
        0 <= i < pairs.len() && 0 <= j < pairs.len() && i != j ==> #[trigger] key_at(pairs, i)
            != #[trigger] key_at(pairs, j)
}

/// Some pair has the key `key`.
pub open spec fn has_key<V>(pairs: Seq<(Seq<char>, V)>, key: Seq<char>) -> bool {
    exists|i: int| 0 <= i < pairs.len() && #[trigger] key_at(pairs, i) == key
}

/// Where the pair with the key `key` stands, if there is one.
pub open spec fn position<V>(pairs: Seq<(Seq<char>, V)>, key: Seq<char>) -> int {
    choose|i: int| 0 <= i < pairs.len() && #[trigger] key_at(pairs, i) == key
}

/// The value under `key`, if there is one.
pub open spec fn value_of<V>(pairs: Seq<(Seq<char>, V)>, key: Seq<char>) -> V {
    pairs[position(pairs, key)].1
}

/// The map from key to value that the pairs stand for.
pub open spec fn table_of<V>(pairs: Seq<(Seq<char>, V)>) -> Map<Seq<char>, V> {
    Map::new(|key: Seq<char>| has_key(pairs, key), |key: Seq<char>| value_of(pairs, key))
}

/// The pairs with `value` under `key`: in the place of the value that was
/// under it, or behind all others if the key is new.
pub open spec fn put<V>(pairs: Seq<(Seq<char>, V)>, key: Seq<char>, value: V) -> Seq<
    (Seq<char>, V),
> {
    if has_key(pairs, key) {
        pairs.update(position(pairs, key), (key, value))
    } else {
        pairs.push((key, value))
    }
}

/// The pairs without the one at `i`: the last pair takes its place.
pub open spec fn without_at<V>(pairs: Seq<(Seq<char>, V)>, i: int) -> Seq<(Seq<char>, V)> {
    pairs.update(i, pairs.last()).drop_last()
}

/// The pairs without `key`: the last pair takes the place of the one that
/// had it.
pub open spec fn without<V>(pairs: Seq<(Seq<char>, V)>, key: Seq<char>) -> Seq<(Seq<char>, V)> {
    if has_key(pairs, key) {
        without_at(pairs, position(pairs, key))
    } else {
        pairs
    }
}

/// With distinct keys a pair is found exactly where it stands.
pub proof fn lemma_position<V>(pairs: Seq<(Seq<char>, V)>, i: int)
    requires
        distinct_keys(pairs),
        0 <= i < pairs.len(),
    ensures
        has_key(pairs, key_at(pairs, i)),
        position(pairs, key_at(pairs, i)) == i,
        value_of(pairs, key_at(pairs, i)) == pairs[i].1,
        table_of(pairs).contains_key(key_at(pairs, i)),
        table_of(pairs)[key_at(pairs, i)] == pairs[i].1,
{
}

/// Appending a pair with a new key adds it to the map.
pub proof fn lemma_table_push<V>(pairs: Seq<(Seq<char>, V)>, key: Seq<char>, value: V)
    requires
        distinct_keys(pairs),
        !has_key(pairs, key),
    ensures
        distinct_keys(pairs.push((key, value))),
        table_of(pairs.push((key, value))) == table_of(pairs).insert(key, value),
{
    let after = pairs.push((key, value));
    let n = pairs.len() as int;
    assert forall|i: int, j: int|
        0 <= i < after.len() && 0 <= j < after.len() && i != j implies #[trigger] key_at(after, i)
        != #[trigger] key_at(after, j) by {
        if i < n && j < n {
            assert(key_at(pairs, i) != key_at(pairs, j));
        } else if i < n {
            assert(key_at(pairs, i) != key);
        } else {
            assert(key_at(pairs, j) != key);
        }
    }
    let left = table_of(after);
    let right = table_of(pairs).insert(key, value);
    assert forall|k: Seq<char>| left.contains_key(k) == right.contains_key(k) by {
        if has_key(after, k) {
            let i = position(after, k);
            if i < n {
                assert(key_at(pairs, i) == k);
            }
        }
        if has_key(pairs, k) {
            let i = position(pairs, k);
            assert(key_at(after, i) == k);
        }
        if k == key {
            assert(key_at(after, n) == k);
        }
    }
    assert forall|k: Seq<char>| left.contains_key(k) implies left[k] == right[k] by {
        let i = position(after, k);
        lemma_position(after, i);
        if i < n {
            lemma_position(pairs, i);
        }
    }
}

/// Replacing the value of a pair replaces it in the map.
pub proof fn lemma_table_update<V>(pairs: Seq<(Seq<char>, V)>, i: int, value: V)
    requires
        distinct_keys(pairs),
        0 <= i < pairs.len(),
    ensures
        distinct_keys(pairs.update(i, (key_at(pairs, i), value))),
        table_of(pairs.update(i, (key_at(pairs, i), value))) == table_of(pairs).insert(
            key_at(pairs, i),
            value,
        ),
{
    let key = key_at(pairs, i);
    let after = pairs.update(i, (key, value));
    assert forall|a: int| 0 <= a < after.len() implies #[trigger] key_at(after, a) == key_at(
        pairs,
        a,
    ) by {}
    let left = table_of(after);
    let right = table_of(pairs).insert(key, value);
    assert forall|k: Seq<char>| left.contains_key(k) == right.contains_key(k) by {
        if has_key(pairs, k) {
            let p = position(pairs, k);
            assert(key_at(after, p) == k);
        }
    }
    assert forall|k: Seq<char>| left.contains_key(k) implies left[k] == right[k] by {
        let p = position(after, k);
        lemma_position(after, p);
        lemma_position(pairs, p);
    }
}

/// Moving the last pair into the place of the pair at `i` removes the key of
/// that pair from the map.
pub proof fn lemma_table_without_at<V>(pairs: Seq<(Seq<char>, V)>, i: int)
    requires
        distinct_keys(pairs),
        0 <= i < pairs.len(),
    ensures
        distinct_keys(without_at(pairs, i)),
        table_of(without_at(pairs, i)) == table_of(pairs).remove(key_at(pairs, i)),
{
    let after = without_at(pairs, i);
    let last = pairs.len() - 1;
    let gone = key_at(pairs, i);
    assert forall|a: int| 0 <= a < after.len() implies #[trigger] key_at(after, a) == (if a == i {
        key_at(pairs, last)
    } else {
        key_at(pairs, a)
    }) && after[a].1 == (if a == i {
        pairs[last].1
    } else {
        pairs[a].1
    }) by {}
    let left = table_of(after);
    let right = table_of(pairs).remove(gone);
    assert forall|k: Seq<char>| left.contains_key(k) == right.contains_key(k) by {
        if has_key(pairs, k) && k != gone {
            let p = position(pairs, k);
            if p == last {
                assert(key_at(after, i) == k);
            } else {
                assert(key_at(after, p) == k);
            }
        }
    }
    assert forall|k: Seq<char>| left.contains_key(k) implies left[k] == right[k] by {
        let p = position(after, k);
        let was = if p == i { last } else { p };
        lemma_position(after, p);
        lemma_position(pairs, was);
    }
}

/// With distinct keys the map has as many keys as there are pairs.
pub proof fn lemma_table_len<V>(pairs: Seq<(Seq<char>, V)>)
    requires
        distinct_keys(pairs),
    ensures
        table_of(pairs).dom().finite(),
        table_of(pairs).dom().len() == pairs.len(),
    decreases pairs.len(),
{
    if pairs.len() == 0 {
        assert(table_of(pairs).dom() =~= Set::<Seq<char>>::empty());
    } else {
        let front = pairs.drop_last();
        let last = pairs.last();
        assert forall|a: int| 0 <= a < front.len() implies #[trigger] key_at(front, a) == key_at(
            pairs,
            a,
        ) by {}
        assert(!has_key(front, last.0)) by {
            if has_key(front, last.0) {
                let p = position(front, last.0);
                assert(key_at(pairs, p) == key_at(pairs, pairs.len() - 1));
            }
        }
        lemma_table_len(front);
        lemma_table_push(front, last.0, last.1);
        assert(front.push((last.0, last.1)) =~= pairs);
    }
}

/// Putting a value under a key keeps the keys distinct and sets the key in
/// the map.
pub proof fn lemma_put<V>(pairs: Seq<(Seq<char>, V)>, key: Seq<char>, value: V)
    requires
        distinct_keys(pairs),
    ensures
        distinct_keys(put(pairs, key, value)),
        table_of(put(pairs, key, value)) == table_of(pairs).insert(key, value),
{
    if has_key(pairs, key) {
        lemma_table_update(pairs, position(pairs, key), value);
    } else {
        lemma_table_push(pairs, key, value);
    }
}

/// Taking a key out keeps the keys distinct and removes the key from the map.
pub proof fn lemma_without<V>(pairs: Seq<(Seq<char>, V)>, key: Seq<char>)
    requires
        distinct_keys(pairs),
    ensures
        distinct_keys(without(pairs, key)),
        table_of(without(pairs, key)) == table_of(pairs).remove(key),
{
    if has_key(pairs, key) {
        lemma_table_without_at(pairs, position(pairs, key));
    }
}

} // verus!
