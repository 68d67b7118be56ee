//! Association lists: values stored under keys in a sequence, each key at
//! most once, a key's value being the one stored last under it.

use vstd::prelude::*;

verus! {

/// The value stored last under the key.
pub open spec fn lookup<K: View, V>(s: Seq<(K, V)>, key: K::V) -> Option<V>
    decreases s.len(),
{
    if s.len() == 0 {
        None
    } else if s.last().0@ == key {
        Some(s.last().1)
    } else {
        lookup(s.drop_last(), key)
    }
}

/// No key occurs twice.
pub open spec fn distinct_keys<K: View, V>(s: Seq<(K, V)>) -> bool {
    forall|i: int, j: int| 0 <= i < j < s.len() ==> (#[trigger] s[i]).0@ != (#[trigger] s[j]).0@
}

/// The value of a key that is stored is the one stored with it.
pub proof fn lemma_lookup_at<K: View, V>(s: Seq<(K, V)>, key: K::V, i: int)
    requires
        distinct_keys(s),
        0 <= i < s.len(),
        s[i].0@ == key,
    ensures
        lookup(s, key) == Some(s[i].1),
    decreases s.len(),
{
    if i < s.len() - 1 {
        assert(s[i].0@ != s[s.len() - 1].0@);
        lemma_lookup_at(s.drop_last(), key, i);
    }
}

/// A key that is not stored has no value.
pub proof fn lemma_lookup_absent<K: View, V>(s: Seq<(K, V)>, key: K::V)
    requires
        forall|i: int| 0 <= i < s.len() ==> (#[trigger] s[i]).0@ != key,
    ensures
        lookup(s, key) is None,
    decreases s.len(),
{
    if s.len() > 0 {
        lemma_lookup_absent(s.drop_last(), key);
    }
}

/// With distinct keys the lookup does not depend on which occurrence is
/// first: dropping the first entry keeps every other key's entry.
pub proof fn lemma_lookup_drop_first<K: View, V>(s: Seq<(K, V)>, key: K::V)
    requires
        distinct_keys(s),
        s.len() > 0,
        s[0].0@ != key,
    ensures
        lookup(s, key) == lookup(s.drop_first(), key),
{
    let t = s.drop_first();
    assert(distinct_keys(t)) by {
        assert forall|i: int, j: int| 0 <= i < j < t.len() implies (#[trigger] t[i]).0@ != (#[trigger] t[j]).0@ by {
            assert(t[i] == s[i + 1] && t[j] == s[j + 1]);
        }
    }
    if exists|i: int| 0 <= i < s.len() && (#[trigger] s[i]).0@ == key {
        let i = choose|i: int| 0 <= i < s.len() && (#[trigger] s[i]).0@ == key;
        lemma_lookup_at(s, key, i);
        assert(t[i - 1] == s[i]);
        lemma_lookup_at(t, key, i - 1);
    } else {
        lemma_lookup_absent(s, key);
        assert forall|i: int| 0 <= i < t.len() implies (#[trigger] t[i]).0@ != key by {
            assert(t[i] == s[i + 1]);
        }
        lemma_lookup_absent(t, key);
    }
}

/// Replacing the entry of a key changes that key's entry only.
pub proof fn lemma_lookup_update<K: View, V>(s: Seq<(K, V)>, i: int, e: (K, V), key: K::V)
    requires
        distinct_keys(s),
        0 <= i < s.len(),
        s[i].0@ == e.0@,
    ensures
        distinct_keys(s.update(i, e)),
        lookup(s.update(i, e), key) == if key == e.0@ {
            Some(e.1)
        } else {
            lookup(s, key)
        },
{
    let u = s.update(i, e);
    assert(distinct_keys(u)) by {
        assert forall|a: int, b: int| 0 <= a < b < u.len() implies (#[trigger] u[a]).0@ != (#[trigger] u[b]).0@ by {
            assert(s[a].0@ != s[b].0@);
        }
    }
    if key == e.0@ {
        lemma_lookup_at(u, key, i);
    } else if exists|j: int| 0 <= j < s.len() && (#[trigger] s[j]).0@ == key {
        let j = choose|j: int| 0 <= j < s.len() && (#[trigger] s[j]).0@ == key;
        lemma_lookup_at(s, key, j);
        lemma_lookup_at(u, key, j);
    } else {
        lemma_lookup_absent(s, key);
        assert forall|j: int| 0 <= j < u.len() implies (#[trigger] u[j]).0@ != key by {
            if j != i {
                assert(u[j] == s[j]);
            }
        }
        lemma_lookup_absent(u, key);
    }
}

/// Appending a key that is not stored yet keeps the keys distinct, gives
/// that key its value and changes no other key's value.
pub proof fn lemma_lookup_push<K: View, V>(s: Seq<(K, V)>, e: (K, V), key: K::V)
    requires
        distinct_keys(s),
        lookup(s, e.0@) is None,
    ensures
        distinct_keys(s.push(e)),
        lookup(s.push(e), key) == if key == e.0@ {
            Some(e.1)
        } else {
            lookup(s, key)
        },
{
    let t = s.push(e);
    assert(t.drop_last() =~= s);
    assert(distinct_keys(t)) by {
        assert forall|a: int, b: int| 0 <= a < b < t.len() implies (#[trigger] t[a]).0@ != (#[trigger] t[b]).0@ by {
            if b < s.len() {
                assert(s[a].0@ != s[b].0@);
            } else {
                assert(t[a] == s[a]);
                if s[a].0@ == e.0@ {
                    lemma_lookup_at(s, e.0@, a);
                }
            }
        }
    }
}

} // verus!
