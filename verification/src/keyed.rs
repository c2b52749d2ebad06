//! Sequences of keyed entries read as maps: a later entry for a key replaces
//! an earlier one, as when pairs are collected into a map one by one.

use vstd::prelude::*;

verus! {

/// The map obtained by inserting the pairs of `s` in order.
pub open spec fn keyed_map<V>(s: Seq<(Seq<char>, V)>) -> Map<Seq<char>, V>
    decreases s.len(),
{
    if s.len() == 0 {
        Map::empty()
    } else {
        keyed_map(s.drop_last()).insert(s.last().0, s.last().1)
    }
}

/// No key occurs twice in `s`.
pub open spec fn unique_keys<V>(s: Seq<(Seq<char>, V)>) -> bool {
    forall|i: int, j: int| 0 <= i < j < s.len() ==> s[i].0 != s[j].0
}

/// A key is in the map exactly when some entry carries it.
pub proof fn lemma_keyed_map_dom<V>(s: Seq<(Seq<char>, V)>, k: Seq<char>)
    ensures
        keyed_map(s).contains_key(k) <==> exists|i: int| 0 <= i < s.len() && s[i].0 == k,
    decreases s.len(),
{
    if s.len() > 0 {
        lemma_keyed_map_dom(s.drop_last(), k);
        if keyed_map(s.drop_last()).contains_key(k) {
            let i = choose|i: int| 0 <= i < s.drop_last().len() && s.drop_last()[i].0 == k;
            assert(s[i].0 == k);
        }
        if exists|i: int| 0 <= i < s.len() && s[i].0 == k {
            let i = choose|i: int| 0 <= i < s.len() && s[i].0 == k;
            if i < s.len() - 1 {
                assert(s.drop_last()[i].0 == k);
            }
        }
    }
}

/// With unique keys, each entry is found under its own key.
pub proof fn lemma_keyed_map_lookup<V>(s: Seq<(Seq<char>, V)>, i: int)
    requires
        unique_keys(s),
        0 <= i < s.len(),
    ensures
        keyed_map(s).contains_key(s[i].0),
        keyed_map(s)[s[i].0] == s[i].1,
    decreases s.len(),
{
    if i < s.len() - 1 {
        assert(unique_keys(s.drop_last()));
        assert(s.drop_last()[i] == s[i]);
        lemma_keyed_map_lookup(s.drop_last(), i);
    }
}

/// Replacing the value of an entry replaces the value under its key.
pub proof fn lemma_keyed_map_update<V>(s: Seq<(Seq<char>, V)>, j: int, v: V)
    requires
        unique_keys(s),
        0 <= j < s.len(),
    ensures
        unique_keys(s.update(j, (s[j].0, v))),
        keyed_map(s.update(j, (s[j].0, v))) == keyed_map(s).insert(s[j].0, v),
{
    let t = s.update(j, (s[j].0, v));
    let m = keyed_map(s).insert(s[j].0, v);
    assert(unique_keys(t));
    assert forall|k: Seq<char>| keyed_map(t).contains_key(k) <==> m.contains_key(k) by {
        lemma_keyed_map_dom(t, k);
        lemma_keyed_map_dom(s, k);
        if exists|i: int| 0 <= i < s.len() && s[i].0 == k {
            let i = choose|i: int| 0 <= i < s.len() && s[i].0 == k;
            assert(t[i].0 == k);
        }
        if exists|i: int| 0 <= i < t.len() && t[i].0 == k {
            let i = choose|i: int| 0 <= i < t.len() && t[i].0 == k;
            assert(s[i].0 == k);
        }
    }
    assert forall|k: Seq<char>| keyed_map(t).contains_key(k) implies keyed_map(t)[k] == m[k] by {
        lemma_keyed_map_dom(t, k);
        let i = choose|i: int| 0 <= i < t.len() && t[i].0 == k;
        lemma_keyed_map_lookup(t, i);
        if i != j {
            lemma_keyed_map_lookup(s, i);
        }
    }
    assert(keyed_map(t) =~= m);
}

/// Removing an entry removes its key.
pub proof fn lemma_keyed_map_remove<V>(s: Seq<(Seq<char>, V)>, j: int)
    requires
        unique_keys(s),
        0 <= j < s.len(),
    ensures
        unique_keys(s.remove(j)),
        keyed_map(s.remove(j)) == keyed_map(s).remove(s[j].0),
{
    let t = s.remove(j);
    let m = keyed_map(s).remove(s[j].0);
    assert forall|a: int, b: int| 0 <= a < b < t.len() implies t[a].0 != t[b].0 by {
        let a2 = if a < j { a } else { a + 1 };
        let b2 = if b < j { b } else { b + 1 };
        assert(t[a] == s[a2]);
        assert(t[b] == s[b2]);
    }
    assert forall|k: Seq<char>| keyed_map(t).contains_key(k) <==> m.contains_key(k) by {
        lemma_keyed_map_dom(t, k);
        lemma_keyed_map_dom(s, k);
        if exists|i: int| 0 <= i < s.len() && s[i].0 == k && k != s[j].0 {
            let i = choose|i: int| 0 <= i < s.len() && s[i].0 == k && k != s[j].0;
            if i < j {
                assert(t[i].0 == k);
            } else {
                assert(t[i - 1].0 == k);
            }
        }
        if exists|i: int| 0 <= i < t.len() && t[i].0 == k {
            let i = choose|i: int| 0 <= i < t.len() && t[i].0 == k;
            let i2 = if i < j { i } else { i + 1 };
            assert(s[i2].0 == k);
            assert(i2 != j);
        }
    }
    assert forall|k: Seq<char>| keyed_map(t).contains_key(k) implies keyed_map(t)[k] == m[k] by {
        lemma_keyed_map_dom(t, k);
        let i = choose|i: int| 0 <= i < t.len() && t[i].0 == k;
        let i2 = if i < j { i } else { i + 1 };
        lemma_keyed_map_lookup(t, i);
        lemma_keyed_map_lookup(s, i2);
    }
    assert(keyed_map(t) =~= m);
}

} // verus!
