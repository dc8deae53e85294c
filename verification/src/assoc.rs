//! Association lists: a sequence of key and value pairs in which no key occurs
//! twice, read as a map.

use vstd::prelude::*;

verus! {

/// No key occurs at two places of `s`.
pub open spec fn keys_unique<K, V>(s: Seq<(K, V)>) -> bool {
    forall|i: int, j: int| 0 <= i < j < s.len() ==> s[i].0 != s[j].0
}

/// Some place of `s` holds the key `k`.
pub open spec fn has_key<K, V>(s: Seq<(K, V)>, k: K) -> bool {
    exists|i: int| 0 <= i < s.len() && #[trigger] s[i].0 == k
}

/// A place of `s` that holds the key `k`, where there is one.
pub open spec fn place_of<K, V>(s: Seq<(K, V)>, k: K) -> int {
    choose|i: int| 0 <= i < s.len() && #[trigger] s[i].0 == k
}

/// The map that `s` stands for.
pub open spec fn as_map<K, V>(s: Seq<(K, V)>) -> Map<K, V> {
    Map::new(|k: K| has_key(s, k), |k: K| s[place_of(s, k)].1)
}

/// What stands at a place of a list with unique keys is what the map holds
/// under that place's key.
pub proof fn lemma_entry<K, V>(s: Seq<(K, V)>, i: int)
    requires
        keys_unique(s),
        0 <= i < s.len(),
    ensures
        as_map(s).contains_key(s[i].0),
        as_map(s)[s[i].0] == s[i].1,
{
    let k = s[i].0;
    assert(has_key(s, k));
    let j = place_of(s, k);
    assert(j == i) by {
        if j < i {
            assert(s[j].0 != s[i].0);
        } else if i < j {
            assert(s[i].0 != s[j].0);
        }
    }
}

/// A key that stands at no place is not in the map.
pub proof fn lemma_absent<K, V>(s: Seq<(K, V)>, k: K)
    requires
        forall|i: int| 0 <= i < s.len() ==> (#[trigger] s[i]).0 != k,
    ensures
        !as_map(s).contains_key(k),
{
    if has_key(s, k) {
        assert(s[place_of(s, k)].0 == k);
    }
}

/// Appending a fresh key inserts it into the map and keeps the keys unique.
pub proof fn lemma_push<K, V>(s: Seq<(K, V)>, k: K, v: V)
    requires
        keys_unique(s),
        !as_map(s).contains_key(k),
    ensures
        keys_unique(s.push((k, v))),
        as_map(s.push((k, v))) == as_map(s).insert(k, v),
{
    let t = s.push((k, v));
    assert forall|i: int, j: int| 0 <= i < j < t.len() implies t[i].0 != t[j].0 by {
        if j == s.len() && s[i].0 == k {
            lemma_entry(s, i);
        }
    }
    assert forall|q: K| as_map(t).contains_key(q) <==> as_map(s).insert(k, v).contains_key(
        q,
    ) by {
        if has_key(t, q) {
            let j = place_of(t, q);
            if j < s.len() {
                assert(s[j].0 == q);
            }
        }
        if has_key(s, q) {
            assert(t[place_of(s, q)].0 == q);
        }
        if q == k {
            assert(t[s.len() as int].0 == q);
        }
    }
    assert forall|q: K| as_map(t).contains_key(q) implies as_map(t)[q] == as_map(s).insert(
        k,
        v,
    )[q] by {
        let j = place_of(t, q);
        lemma_entry(t, j);
        if j < s.len() {
            assert(t[j] == s[j]);
            lemma_entry(s, j);
        }
    }
    assert(as_map(t) =~= as_map(s).insert(k, v));
}

/// Replacing the value at a place updates the map under that place's key and
/// keeps the keys unique.
pub proof fn lemma_update<K, V>(s: Seq<(K, V)>, i: int, v: V)
    requires
        keys_unique(s),
        0 <= i < s.len(),
    ensures
        keys_unique(s.update(i, (s[i].0, v))),
        as_map(s.update(i, (s[i].0, v))) == as_map(s).insert(s[i].0, v),
{
    let k = s[i].0;
    let t = s.update(i, (k, v));
    assert forall|a: int, b: int| 0 <= a < b < t.len() implies t[a].0 != t[b].0 by {
        assert(t[a].0 == s[a].0 && t[b].0 == s[b].0);
    }
    assert forall|q: K| as_map(t).contains_key(q) <==> as_map(s).insert(k, v).contains_key(
        q,
    ) by {
        if has_key(t, q) {
            assert(s[place_of(t, q)].0 == q);
        }
        if has_key(s, q) {
            assert(t[place_of(s, q)].0 == q);
        }
        if q == k {
            assert(t[i].0 == q);
        }
    }
    assert forall|q: K| as_map(t).contains_key(q) implies as_map(t)[q] == as_map(s).insert(
        k,
        v,
    )[q] by {
        let j = place_of(t, q);
        lemma_entry(t, j);
        if j != i {
            assert(t[j] == s[j]);
            lemma_entry(s, j);
        }
    }
    assert(as_map(t) =~= as_map(s).insert(k, v));
}

} // verus!
