//! Maps written as sequences of key-value pairs, read with the rule that a
//! later pair replaces an earlier one with the same key.

use vstd::prelude::*;

verus! {

/// `base` after each pair of `writes` was inserted in turn.
pub open spec fn overlay<K, V>(base: Map<K, V>, writes: Seq<(K, V)>) -> Map<K, V>
    decreases writes.len(),
{
    if writes.len() == 0 {
        base
    } else {
        overlay(base, writes.drop_last()).insert(writes.last().0, writes.last().1)
    }
}

/// The map that a sequence of pairs stands for.
pub open spec fn map_of<K, V>(pairs: Seq<(K, V)>) -> Map<K, V> {
    overlay(Map::empty(), pairs)
}

/// The index of the last pair of `pairs` with key `key`, if any.
pub open spec fn last_with_key<K, V>(pairs: Seq<(K, V)>, key: K) -> Option<int>
    decreases pairs.len(),
{
    if pairs.len() == 0 {
        None
    } else if pairs.last().0 == key {
        Some(pairs.len() - 1)
    } else {
        last_with_key(pairs.drop_last(), key)
    }
}

/// Inserting two batches of writes in turn is inserting their concatenation.
pub proof fn lemma_overlay_concat<K, V>(base: Map<K, V>, first: Seq<(K, V)>, second: Seq<(K, V)>)
    ensures
        overlay(base, first + second) == overlay(overlay(base, first), second),
    decreases second.len(),
{
    if second.len() > 0 {
        lemma_overlay_concat(base, first, second.drop_last());
        assert((first + second).drop_last() =~= first + second.drop_last());
    }
}

/// What an overlay holds under a key: the value of the last write to that
/// key, or what the base held where no write names the key.
pub proof fn lemma_overlay_lookup<K, V>(base: Map<K, V>, writes: Seq<(K, V)>, key: K)
    ensures
        match last_with_key(writes, key) {
            Some(i) => {
                &&& 0 <= i < writes.len()
                &&& writes[i].0 == key
                &&& forall|j: int| i < j < writes.len() ==> writes[j].0 != key
                &&& overlay(base, writes).contains_key(key)
                &&& overlay(base, writes)[key] == writes[i].1
            },
            None => {
                &&& forall|j: int| 0 <= j < writes.len() ==> writes[j].0 != key
                &&& overlay(base, writes).contains_key(key) == base.contains_key(key)
                &&& base.contains_key(key) ==> overlay(base, writes)[key] == base[key]
            },
        },
    decreases writes.len(),
{
    if writes.len() > 0 && writes.last().0 != key {
        let front = writes.drop_last();
        lemma_overlay_lookup(base, front, key);
        assert(forall|j: int| 0 <= j < front.len() ==> front[j] == writes[j]);
    }
}

/// Replaying writes over their own result changes nothing.
pub proof fn lemma_overlay_idempotent<K, V>(base: Map<K, V>, writes: Seq<(K, V)>)
    ensures
        overlay(overlay(base, writes), writes) == overlay(base, writes),
{
    let once = overlay(base, writes);
    let twice = overlay(once, writes);
    assert forall|key: K| #[trigger] twice.dom().contains(key) == once.dom().contains(key) by {
        lemma_overlay_lookup(base, writes, key);
        lemma_overlay_lookup(once, writes, key);
    }
    assert forall|key: K| once.dom().contains(key) implies #[trigger] twice[key] == once[key] by {
        lemma_overlay_lookup(base, writes, key);
        lemma_overlay_lookup(once, writes, key);
    }
}

/// Replacing the value of the last pair with a key is inserting under that
/// key.
pub proof fn lemma_map_of_update<K, V>(pairs: Seq<(K, V)>, i: int, value: V)
    requires
        0 <= i < pairs.len(),
        last_with_key(pairs, pairs[i].0) == Some(i),
    ensures
        map_of(pairs.update(i, (pairs[i].0, value))) == map_of(pairs).insert(pairs[i].0, value),
    decreases pairs.len(),
{
    let key = pairs[i].0;
    let changed = pairs.update(i, (key, value));
    if i == pairs.len() - 1 {
        assert(changed.drop_last() =~= pairs.drop_last());
    } else {
        lemma_map_of_update(pairs.drop_last(), i, value);
        assert(changed.drop_last() =~= pairs.drop_last().update(i, (key, value)));
    }
}

/// No key occurs in two pairs.
pub open spec fn keys_distinct<K, V>(pairs: Seq<(K, V)>) -> bool {
    forall|i: int, j: int| 0 <= i < j < pairs.len() ==> pairs[i].0 != pairs[j].0
}

/// Pairs with distinct keys stand for a map with as many keys as there are
/// pairs.
pub proof fn lemma_distinct_keys_count<K, V>(pairs: Seq<(K, V)>)
    requires
        keys_distinct(pairs),
    ensures
        map_of(pairs).dom().finite(),
        map_of(pairs).dom().len() == pairs.len(),
    decreases pairs.len(),
{
    if pairs.len() == 0 {
        assert(map_of(pairs).dom() =~= Set::empty());
    } else {
        let front = pairs.drop_last();
        let key = pairs.last().0;
        assert(forall|i: int| 0 <= i < front.len() ==> front[i] == pairs[i]);
        lemma_distinct_keys_count(front);
        lemma_overlay_lookup(Map::empty(), front, key);
        assert(map_of(pairs).dom() =~= map_of(front).dom().insert(key));
    }
}

} // verus!
