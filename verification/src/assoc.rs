//! Lists of keyed entries read as maps.
//!
//! The registries keep their entries in a vector, in the order in which the
//! keys first came, and no key twice.  What such a list means is the map from
//! each key to its entry.

use vstd::prelude::*;

verus! {

/// The map that a list of keyed entries stands for: each key maps to the
/// entry that the list holds for it.
pub open spec fn assoc_map<K, V>(s: Seq<(K, V)>) -> Map<K, V>
    decreases s.len(),
{
    if s.len() == 0 {
        Map::empty()
    } else {
        assoc_map(s.drop_last()).insert(s.last().0, s.last().1)
    }
}

/// Whether no key occurs twice in the list.
pub open spec fn unique_keys<K, V>(s: Seq<(K, V)>) -> bool {
    forall|i: int, j: int| 0 <= i < s.len() && 0 <= j < s.len() && i != j ==> s[i].0 != s[j].0
}

/// Whether the list holds an entry for the key.
pub open spec fn has_key<K, V>(s: Seq<(K, V)>, key: K) -> bool {
    exists|i: int| 0 <= i < s.len() && (#[trigger] s[i]).0 == key
}

/// The keys of the map are the keys of the list.
pub proof fn lemma_assoc_keys<K, V>(s: Seq<(K, V)>, key: K)
    ensures
        assoc_map(s).contains_key(key) <==> has_key(s, key),
    decreases s.len(),
{
    if s.len() > 0 {
        let t = s.drop_last();
        lemma_assoc_keys(t, key);
        if has_key(s, key) {
            let i = choose|i: int| 0 <= i < s.len() && (#[trigger] s[i]).0 == key;
            if i < t.len() {
                assert(t[i].0 == key);
            }
        }
        if has_key(t, key) {
            let i = choose|i: int| 0 <= i < t.len() && (#[trigger] t[i]).0 == key;
        }
    }
}

/// Where no key occurs twice, the map gives for each key of the list the
/// entry at that place.
pub proof fn lemma_assoc_get<K, V>(s: Seq<(K, V)>, i: int)
    requires
        unique_keys(s),
        0 <= i < s.len(),
    ensures
        assoc_map(s).contains_key(s[i].0),
        assoc_map(s)[s[i].0] == s[i].1,
    decreases s.len(),
{
    let t = s.drop_last();
    if i < t.len() {
        lemma_assoc_get(t, i);
    }
}

/// Where no key occurs twice, replacing the entry at one place, under the
/// same key, changes the map at that key alone.
pub proof fn lemma_assoc_update<K, V>(s: Seq<(K, V)>, i: int, v: V)
    requires
        unique_keys(s),
        0 <= i < s.len(),
    ensures
        unique_keys(s.update(i, (s[i].0, v))),
        assoc_map(s.update(i, (s[i].0, v))) == assoc_map(s).insert(s[i].0, v),
    decreases s.len(),
{
    let u = s.update(i, (s[i].0, v));
    let t = s.drop_last();
    if i == s.len() - 1 {
        assert(u.drop_last() =~= t);
    } else {
        lemma_assoc_update(t, i, v);
        assert(u.drop_last() =~= t.update(i, (t[i].0, v)));
    }
}

/// Appending an entry under a key adds it to the map under that key.
pub proof fn lemma_assoc_push<K, V>(s: Seq<(K, V)>, key: K, v: V)
    ensures
        assoc_map(s.push((key, v))) == assoc_map(s).insert(key, v),
        unique_keys(s) && !has_key(s, key) ==> unique_keys(s.push((key, v))),
{
    assert(s.push((key, v)).drop_last() =~= s);
    if unique_keys(s) && !has_key(s, key) {
        let u = s.push((key, v));
    }
}

/// Changing every entry of the list by `f`, under its key, changes every
/// value of the map by `f`.
pub proof fn lemma_assoc_map_values<K, V>(s: Seq<(K, V)>, f: spec_fn(V) -> V)
    ensures
        assoc_map(Seq::new(s.len(), |i: int| (s[i].0, f(s[i].1)))) == assoc_map(s).map_values(f),
        unique_keys(s) ==> unique_keys(Seq::new(s.len(), |i: int| (s[i].0, f(s[i].1)))),
    decreases s.len(),
{
    let u = Seq::new(s.len(), |i: int| (s[i].0, f(s[i].1)));
    if s.len() > 0 {
        let t = s.drop_last();
        lemma_assoc_map_values(t, f);
        assert(u.drop_last() =~= Seq::new(t.len(), |i: int| (t[i].0, f(t[i].1))));
    }
}

/// Where no key occurs twice, the map has as many keys as the list has
/// entries.
pub proof fn lemma_assoc_len<K, V>(s: Seq<(K, V)>)
    requires
        unique_keys(s),
    ensures
        assoc_map(s).dom().finite(),
        assoc_map(s).dom().len() == s.len(),
    decreases s.len(),
{
    if s.len() > 0 {
        let t = s.drop_last();
        lemma_assoc_len(t);
        lemma_assoc_keys(t, s.last().0);
    }
}

} // verus!
