//! Association sequences: a sequence of key-value pairs read as a map in which the
//! first pair with a given key decides.

use vstd::prelude::*;

verus! {

/// The position of the first pair of `s` whose key is `k`, or -1 if there is none.
pub open spec fn first_index<K, V>(s: Seq<(K, V)>, k: K) -> int
    decreases s.len(),
{
    if s.len() == 0 {
        -1
    } else if s[0].0 == k {
        0
    } else {
        let rest = first_index(s.drop_first(), k);
        if rest < 0 {
            -1
        } else {
            rest + 1
        }
    }
}

/// The value that `s` gives to `k`: that of the first pair with this key.
pub open spec fn lookup<K, V>(s: Seq<(K, V)>, k: K) -> Option<V> {
    let i = first_index(s, k);
    if i < 0 {
        None
    } else {
        Some(s[i].1)
    }
}

/// No pair of `s` before position `i` has the key `k`.
pub open spec fn absent_before<K, V>(s: Seq<(K, V)>, k: K, i: int) -> bool {
    forall|j: int| 0 <= j < i && j < s.len() ==> (#[trigger] s[j]).0 != k
}

/// The map that an association sequence stands for.
pub open spec fn as_map<K, V>(s: Seq<(K, V)>) -> Map<K, V> {
    Map::new(|k: K| lookup(s, k) is Some, |k: K| lookup(s, k)->0)
}

/// What `first_index` returns: -1 exactly when the key is absent, else the least
/// position that holds it.
pub proof fn lemma_first_index<K, V>(s: Seq<(K, V)>, k: K)
    ensures
        -1 <= first_index(s, k) < s.len(),
        first_index(s, k) < 0 ==> absent_before(s, k, s.len() as int),
        first_index(s, k) >= 0 ==> s[first_index(s, k)].0 == k && absent_before(
            s,
            k,
            first_index(s, k),
        ),
    decreases s.len(),
{
    if s.len() > 0 && s[0].0 != k {
        let rest = s.drop_first();
        lemma_first_index(rest, k);
        let r = first_index(rest, k);
        if r < 0 {
            assert forall|j: int| 0 <= j < s.len() implies (#[trigger] s[j]).0 != k by {
                if j > 0 {
                    assert(rest[j - 1] == s[j]);
                }
            }
        } else {
            assert(rest[r] == s[r + 1]);
            assert forall|j: int| 0 <= j < r + 1 implies (#[trigger] s[j]).0 != k by {
                if j > 0 {
                    assert(rest[j - 1] == s[j]);
                }
            }
        }
    }
}

/// A position that holds the key, with no earlier one that does, is the first index.
pub proof fn lemma_first_index_is<K, V>(s: Seq<(K, V)>, k: K, i: int)
    requires
        0 <= i < s.len(),
        s[i].0 == k,
        absent_before(s, k, i),
    ensures
        first_index(s, k) == i,
        lookup(s, k) == Some(s[i].1),
{
    lemma_first_index(s, k);
    let f = first_index(s, k);
    if f < 0 {
        assert(s[i].0 != k);
    } else if f < i {
        assert(s[f].0 != k);
    } else if i < f {
        assert(s[i].0 != k);
    }
}

/// A sequence in which no pair holds the key gives it no value.
pub proof fn lemma_first_index_none<K, V>(s: Seq<(K, V)>, k: K)
    requires
        absent_before(s, k, s.len() as int),
    ensures
        first_index(s, k) == -1,
        lookup(s, k) is None,
{
    lemma_first_index(s, k);
    let f = first_index(s, k);
    if f >= 0 {
        assert(s[f].0 != k);
    }
}

/// Appending a pair gives its key that value unless the key was already bound,
/// and leaves every other key as it was.
pub proof fn lemma_lookup_push<K, V>(s: Seq<(K, V)>, k: K, v: V, q: K)
    ensures
        lookup(s.push((k, v)), q) == if lookup(s, q) is Some {
            lookup(s, q)
        } else if q == k {
            Some(v)
        } else {
            None
        },
{
    let t = s.push((k, v));
    lemma_first_index(s, q);
    let f = first_index(s, q);
    if f >= 0 {
        assert(t[f] == s[f]);
        assert forall|j: int| 0 <= j < f && j < t.len() implies (#[trigger] t[j]).0 != q by {
            assert(t[j] == s[j]);
        }
        lemma_first_index_is(t, q, f);
    } else if q == k {
        assert forall|j: int| 0 <= j < s.len() && j < t.len() implies (#[trigger] t[j]).0 != q by {
            assert(t[j] == s[j]);
        }
        lemma_first_index_is(t, q, s.len() as int);
    } else {
        assert forall|j: int| 0 <= j < t.len() implies (#[trigger] t[j]).0 != q by {
            if j < s.len() {
                assert(t[j] == s[j]);
            }
        }
        lemma_first_index_none(t, q);
    }
}

/// Replacing the value of the first pair that holds a key rebinds that key and
/// leaves every other key as it was.
pub proof fn lemma_lookup_update<K, V>(s: Seq<(K, V)>, i: int, v: V, q: K)
    requires
        0 <= i < s.len(),
        absent_before(s, s[i].0, i),
    ensures
        lookup(s.update(i, (s[i].0, v)), q) == if q == s[i].0 {
            Some(v)
        } else {
            lookup(s, q)
        },
{
    let k = s[i].0;
    let t = s.update(i, (k, v));
    if q == k {
        assert forall|j: int| 0 <= j < i && j < t.len() implies (#[trigger] t[j]).0 != q by {
            assert(t[j] == s[j]);
        }
        lemma_first_index_is(t, q, i);
    } else {
        lemma_first_index(s, q);
        let f = first_index(s, q);
        if f >= 0 {
            assert(t[f] == s[f]);
            assert forall|j: int| 0 <= j < f && j < t.len() implies (#[trigger] t[j]).0 != q by {
                if j != i {
                    assert(t[j] == s[j]);
                }
            }
            lemma_first_index_is(t, q, f);
        } else {
            assert forall|j: int| 0 <= j < t.len() implies (#[trigger] t[j]).0 != q by {
                if j != i {
                    assert(t[j] == s[j]);
                }
            }
            lemma_first_index_none(t, q);
        }
    }
}

/// Inserting a pair at a position before which its key does not occur binds that
/// key and leaves every other key as it was.
pub proof fn lemma_lookup_insert<K, V>(s: Seq<(K, V)>, i: int, k: K, v: V, q: K)
    requires
        0 <= i <= s.len(),
        absent_before(s, k, i),
    ensures
        lookup(s.insert(i, (k, v)), q) == if q == k {
            Some(v)
        } else {
            lookup(s, q)
        },
{
    let t = s.insert(i, (k, v));
    assert(t.len() == s.len() + 1);
    assert(t[i] == (k, v));
    assert forall|j: int| 0 <= j < i implies #[trigger] t[j] == s[j] by {}
    assert forall|j: int| i < j < t.len() implies #[trigger] t[j] == s[j - 1] by {}
    if q == k {
        assert forall|j: int| 0 <= j < i && j < t.len() implies (#[trigger] t[j]).0 != q by {
            assert(t[j] == s[j]);
        }
        lemma_first_index_is(t, q, i);
    } else {
        lemma_first_index(s, q);
        let f = first_index(s, q);
        if f >= 0 {
            let g = if f < i {
                f
            } else {
                f + 1
            };
            assert(t[g] == s[f]);
            assert forall|j: int| 0 <= j < g && j < t.len() implies (#[trigger] t[j]).0 != q by {
                if j < i {
                    assert(t[j] == s[j]);
                } else if j > i {
                    assert(t[j] == s[j - 1]);
                }
            }
            lemma_first_index_is(t, q, g);
        } else {
            assert forall|j: int| 0 <= j < t.len() implies (#[trigger] t[j]).0 != q by {
                if j < i {
                    assert(t[j] == s[j]);
                } else if j > i {
                    assert(t[j] == s[j - 1]);
                }
            }
            lemma_first_index_none(t, q);
        }
    }
}

} // verus!
