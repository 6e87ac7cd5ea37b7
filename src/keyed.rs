//! Association lists: the caches keep their entries in insertion order and
//! read them as maps, where a later entry for a key shadows an earlier one.
use vstd::prelude::*;
use vstd::std_specs::cmp::PartialEqSpec;

verus! {

/// A key type whose `==` is mathematical equality and whose `clone` returns
/// an equal value: what a type that is `Eq` and `Clone` is expected to do.
pub open spec fn obeys_key_laws<K: Clone + PartialEqSpec>() -> bool {
    &&& K::obeys_eq_spec()
    &&& forall|a: K, b: K| a.eq_spec(&b) == (a == b)
    &&& forall|a: K, b: K| #[trigger] cloned(a, b) ==> a == b
}

/// The map that a list of entries stands for: each key maps to the value of
/// its last entry.
pub open spec fn assoc_map<A, V>(s: Seq<(A, V)>) -> Map<A, V>
    decreases s.len(),
{
    if s.len() == 0 {
        Map::empty()
    } else {
        assoc_map(s.drop_last()).insert(s.last().0, s.last().1)
    }
}

/// An entry that no later entry shadows gives its key's value.
pub proof fn lemma_assoc_found<A, V>(s: Seq<(A, V)>, i: int)
    requires
        0 <= i < s.len(),
        forall|j: int| i < j < s.len() ==> s[j].0 != s[i].0,
    ensures
        assoc_map(s).contains_key(s[i].0),
        assoc_map(s)[s[i].0] == s[i].1,
    decreases s.len(),
{
    if i < s.len() - 1 {
        lemma_assoc_found(s.drop_last(), i);
    }
}

/// A key with no entry is not in the map.
pub proof fn lemma_assoc_absent<A, V>(s: Seq<(A, V)>, k: A)
    requires
        forall|j: int| 0 <= j < s.len() ==> s[j].0 != k,
    ensures
        !assoc_map(s).contains_key(k),
    decreases s.len(),
{
    if s.len() > 0 {
        lemma_assoc_absent(s.drop_last(), k);
    }
}

/// Changing the value of an entry that no later entry shadows changes that
/// key's value and nothing else.
pub proof fn lemma_assoc_update<A, V>(s: Seq<(A, V)>, i: int, v: V)
    requires
        0 <= i < s.len(),
        forall|j: int| i < j < s.len() ==> s[j].0 != s[i].0,
    ensures
        assoc_map(s.update(i, (s[i].0, v))) == assoc_map(s).insert(s[i].0, v),
    decreases s.len(),
{
    let t = s.update(i, (s[i].0, v));
    if i == s.len() - 1 {
        assert(t.drop_last() =~= s.drop_last());
    } else {
        assert(t.drop_last() =~= s.drop_last().update(i, (s[i].0, v)));
        lemma_assoc_update(s.drop_last(), i, v);
        assert(assoc_map(t) =~= assoc_map(s).insert(s[i].0, v));
    }
}

/// The value of the last entry whose key equals `key`, if there is one.
pub fn find_entry<K: PartialEqSpec + Clone + Eq, V: Copy>(entries: &Vec<(K, V)>, key: &K) -> (r:
    Option<V>)
    requires
        obeys_key_laws::<K>(),
    ensures
        r is Some <==> assoc_map(entries@).contains_key(*key),
        r is Some ==> r->Some_0 == assoc_map(entries@)[*key],
{
    let mut j: usize = entries.len();
    while j > 0
        invariant
            j <= entries@.len(),
            obeys_key_laws::<K>(),
            forall|m: int| j <= m < entries@.len() ==> entries@[m].0 != *key,
        decreases j,
    {
        j = j - 1;
        if entries[j].0 == *key {
            proof {
                lemma_assoc_found(entries@, j as int);
            }
            return Some(entries[j].1);
        }
    }
    proof {
        lemma_assoc_absent(entries@, *key);
    }
    None
}

} // verus!
