//! Association lists read as mathematical maps.
//!
//! The executable containers of this crate keep their entries in vectors of
//! key/value pairs with pairwise-distinct keys. Their contracts speak of the
//! `Map` such a list denotes; the lemmas here relate the list operations the
//! containers perform (overwrite in place, append) to `Map::insert`.

use vstd::prelude::*;

verus! {

/// No key occurs twice in the list.
pub open spec fn unique_keys<K, V>(s: Seq<(K, V)>) -> bool {
    forall|i: int, j: int| 0 <= i < j < s.len() ==> s[i].0 != s[j].0
}

/// The map an association list denotes; under `unique_keys` the entry order
/// does not matter, and each key is sent to the value stored beside it.
pub open spec fn assoc_map<K, V>(s: Seq<(K, V)>) -> Map<K, V>
    decreases s.len(),
{
    if s.len() == 0 {
        Map::empty()
    } else {
        assoc_map(s.drop_last()).insert(s.last().0, s.last().1)
    }
}

/// A list with pairwise-distinct keys sends the key of each entry to the
/// value beside it.
pub proof fn lemma_assoc_map_index<K, V>(s: Seq<(K, V)>, i: int)
    requires
        unique_keys(s),
        0 <= i < s.len(),
    ensures
        assoc_map(s).contains_key(s[i].0),
        assoc_map(s)[s[i].0] == s[i].1,
    decreases s.len(),
{
    if i < s.len() - 1 {
        assert(unique_keys(s.drop_last()));
        lemma_assoc_map_index(s.drop_last(), i);
        assert(s.last().0 != s[i].0);
    }
}

/// A key beside no entry of the list is outside the denoted map's domain.
pub proof fn lemma_assoc_map_absent<K, V>(s: Seq<(K, V)>, key: K)
    requires
        forall|j: int| 0 <= j < s.len() ==> s[j].0 != key,
    ensures
        !assoc_map(s).contains_key(key),
    decreases s.len(),
{
    if s.len() > 0 {
        lemma_assoc_map_absent(s.drop_last(), key);
    }
}

/// Appending an entry inserts its key into the denoted map.
pub proof fn lemma_assoc_map_push<K, V>(s: Seq<(K, V)>, key: K, value: V)
    ensures
        assoc_map(s.push((key, value))) == assoc_map(s).insert(key, value),
{
    assert(s.push((key, value)).drop_last() =~= s);
}

/// A list of `n` entries with pairwise-distinct keys denotes a map whose
/// domain holds exactly `n` keys.
pub proof fn lemma_assoc_map_dom_len<K, V>(s: Seq<(K, V)>)
    requires
        unique_keys(s),
    ensures
        assoc_map(s).dom().finite(),
        assoc_map(s).dom().len() == s.len(),
    decreases s.len(),
{
    if s.len() > 0 {
        assert(unique_keys(s.drop_last()));
        lemma_assoc_map_dom_len(s.drop_last());
        lemma_assoc_map_absent(s.drop_last(), s.last().0);
        assert(assoc_map(s).dom() =~= assoc_map(s.drop_last()).dom().insert(s.last().0));
    }
}

/// Overwriting the value beside an existing key inserts that key into the
/// denoted map.
pub proof fn lemma_assoc_map_update<K, V>(s: Seq<(K, V)>, i: int, value: V)
    requires
        unique_keys(s),
        0 <= i < s.len(),
    ensures
        assoc_map(s.update(i, (s[i].0, value))) == assoc_map(s).insert(s[i].0, value),
    decreases s.len(),
{
    let k = s[i].0;
    let t = s.update(i, (k, value));
    if i == s.len() - 1 {
        assert(t.drop_last() =~= s.drop_last());
        assert(t.last() == (k, value));
        assert(assoc_map(s.drop_last()).insert(k, s.last().1).insert(k, value) =~= assoc_map(
            s.drop_last(),
        ).insert(k, value));
    } else {
        assert(unique_keys(s.drop_last()));
        assert(t.drop_last() =~= s.drop_last().update(i, (k, value)));
        lemma_assoc_map_update(s.drop_last(), i, value);
        assert(t.last() == s.last());
        assert(s.last().0 != k);
        assert(assoc_map(s.drop_last()).insert(k, value).insert(s.last().0, s.last().1)
            =~= assoc_map(s.drop_last()).insert(s.last().0, s.last().1).insert(k, value));
    }
}

} // verus!
