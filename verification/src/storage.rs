//! The key-value storage of one account, kept in ascending key order.

use crate::assoc::{absent_before, as_map, first_index, lemma_first_index, lemma_first_index_is, lemma_first_index_none, lemma_lookup_insert, lemma_lookup_push, lemma_lookup_update, lookup};
use crate::primitives::Word;
use vstd::prelude::*;

verus! {

/// The storage that results from writing the pairs of `writes` into `m` one after
/// the other, so that of two writes to one key the later one stays.
pub open spec fn upserted(m: Map<Word, Word>, writes: Seq<(Word, Word)>) -> Map<Word, Word>
    decreases writes.len(),
{
    if writes.len() == 0 {
        m
    } else {
        upserted(m, writes.drop_last()).insert(writes.last().0, writes.last().1)
    }
}

/// Whether the keys of `s` ascend strictly, so that no key occurs twice.
pub open spec fn ascending(s: Seq<(Word, Word)>) -> bool {
    forall|i: int, j: int| 0 <= i < j < s.len() ==> (#[trigger] s[i]).0@ < (#[trigger] s[j]).0@
}

/// In a listing in ascending key order every pair is bound in the map that the
/// listing stands for.
pub proof fn lemma_ascending_binds(s: Seq<(Word, Word)>, i: int)
    requires
        ascending(s),
        0 <= i < s.len(),
    ensures
        absent_before(s, s[i].0, i),
        lookup(s, s[i].0) == Some(s[i].1),
        as_map(s).dom().contains(s[i].0),
        as_map(s)[s[i].0] == s[i].1,
{
    assert forall|j: int| 0 <= j < i && j < s.len() implies (#[trigger] s[j]).0 != s[i].0 by {
        assert(s[j].0@ < s[i].0@);
    }
    lemma_first_index_is(s, s[i].0, i);
}

/// Without its last pair, a listing in ascending key order stands for the same
/// map without the last key.
pub proof fn lemma_ascending_drop_last(s: Seq<(Word, Word)>)
    requires
        ascending(s),
        s.len() > 0,
    ensures
        ascending(s.drop_last()),
        as_map(s.drop_last()) == as_map(s).remove(s.last().0),
{
    let rest = s.drop_last();
    let last = s.last();
    assert(s =~= rest.push(last));
    assert forall|i: int, j: int| 0 <= i < j < rest.len() implies (#[trigger] rest[i]).0@ < (
    #[trigger] rest[j]).0@ by {
        assert(rest[i] == s[i] && rest[j] == s[j]);
    }
    assert forall|j: int| 0 <= j < rest.len() implies (#[trigger] rest[j]).0 != last.0 by {
        assert(rest[j] == s[j]);
        assert(s[j].0@ < s[s.len() - 1].0@);
    }
    lemma_first_index_none(rest, last.0);
    assert forall|q: Word| #[trigger] lookup(s, q) == (if lookup(rest, q) is Some {
        lookup(rest, q)
    } else if q == last.0 {
        Some(last.1)
    } else {
        None
    }) by {
        lemma_lookup_push(rest, last.0, last.1, q);
    }
    assert(as_map(rest) =~= as_map(s).remove(last.0));
}

/// Two listings in ascending key order that stand for the same map are the same
/// listing: the order of the pairs is decided by what the table binds.
pub proof fn lemma_ascending_listing_unique(s: Seq<(Word, Word)>, t: Seq<(Word, Word)>)
    requires
        ascending(s),
        ascending(t),
        as_map(s) == as_map(t),
    ensures
        s == t,
    decreases s.len(),
{
    if s.len() == 0 {
        if t.len() > 0 {
            lemma_ascending_binds(t, 0);
            lemma_first_index_none(s, t[0].0);
            assert(!as_map(s).dom().contains(t[0].0));
        }
        assert(s =~= t);
    } else {
        if t.len() == 0 {
            lemma_ascending_binds(s, 0);
            lemma_first_index_none(t, s[0].0);
            assert(!as_map(t).dom().contains(s[0].0));
        }
        let a = s.len() - 1;
        let b = t.len() - 1;
        lemma_ascending_binds(s, a);
        lemma_ascending_binds(t, b);
        lemma_first_index(t, s[a].0);
        lemma_first_index(s, t[b].0);
        let f = first_index(t, s[a].0);
        let g = first_index(s, t[b].0);
        assert(f >= 0 && g >= 0);
        assert(t[f].0 == s[a].0 && s[g].0 == t[b].0);
        assert(s[a].0@ <= t[b].0@) by {
            if f < b {
                assert(t[f].0@ < t[b].0@);
            }
        }
        assert(t[b].0@ <= s[a].0@) by {
            if g < a {
                assert(s[g].0@ < s[a].0@);
            }
        }
        Word::lemma_order(s[a].0, t[b].0);
        assert(s.last() == t.last());
        lemma_ascending_drop_last(s);
        lemma_ascending_drop_last(t);
        lemma_ascending_listing_unique(s.drop_last(), t.drop_last());
        assert(s =~= s.drop_last().push(s.last()));
        assert(t =~= t.drop_last().push(t.last()));
    }
}

/// A table from 256-bit keys to 256-bit values. Its pairs are held in ascending
/// key order, so two tables that bind the same keys to the same values list them
/// in the same order.
#[derive(Clone, Debug, PartialEq, Eq)]
pub struct StorageTable {
    entries: Vec<(Word, Word)>,
}

impl View for StorageTable {
    type V = Map<Word, Word>;

    closed spec fn view(&self) -> Map<Word, Word> {
        as_map(self.entries@)
    }
}

impl StorageTable {
    /// Whether the pairs are listed in ascending key order. Every table that this
    /// module hands out is; `insert` keeps it so.
    pub closed spec fn wf(&self) -> bool {
        ascending(self.entries@)
    }

    /// The pairs of the table in the order in which they are listed.
    pub closed spec fn pairs(&self) -> Seq<(Word, Word)> {
        self.entries@
    }

    /// Two well-formed tables that bind the same keys to the same values list
    /// their pairs in the same order.
    pub proof fn lemma_same_view_same_pairs(&self, other: &StorageTable)
        requires
            self.wf(),
            other.wf(),
            self@ == other@,
        ensures
            self.pairs() == other.pairs(),
    {
        lemma_ascending_listing_unique(self.entries@, other.entries@);
    }

    /// The empty table.
    pub fn new() -> (t: StorageTable)
        ensures
            t@ == Map::<Word, Word>::empty(),
            t.pairs() == Seq::<(Word, Word)>::empty(),
            t.wf(),
    {
        let t = StorageTable { entries: Vec::new() };
        proof {
            assert forall|k: Word| !(#[trigger] t@.dom().contains(k)) by {
                lemma_first_index(t.entries@, k);
            }
            assert(t@ =~= Map::<Word, Word>::empty());
        }
        t
    }

    /// The number of keys that are bound.
    pub fn len(&self) -> (n: usize)
        ensures
            n == self.pairs().len(),
    {
        self.entries.len()
    }

    /// The value bound to `key`, if any.
    pub fn get(&self, key: &Word) -> (r: Option<Word>)
        ensures
            r == (if self@.dom().contains(*key) {
                Some(self@[*key])
            } else {
                None
            }),
    {
        let mut i: usize = 0;
        while i < self.entries.len()
            invariant
                i <= self.entries.len(),
                absent_before(self.entries@, *key, i as int),
            decreases self.entries.len() - i,
        {
            if self.entries[i].0 == *key {
                proof {
                    lemma_first_index_is(self.entries@, *key, i as int);
                }
                return Some(self.entries[i].1);
            }
            i += 1;
        }
        proof {
            lemma_first_index_none(self.entries@, *key);
        }
        None
    }

    /// Binds `key` to `value`, replacing what it was bound to before.
    pub fn insert(&mut self, key: Word, value: Word)
        ensures
            final(self)@ == old(self)@.insert(key, value),
            old(self).wf() ==> final(self).wf(),
    {
        let ghost before = self.entries@;
        let mut i: usize = 0;
        while i < self.entries.len() && self.entries[i].0.lt(&key)
            invariant
                i <= self.entries.len(),
                self.entries@ == before,
                forall|j: int| 0 <= j < i ==> (#[trigger] before[j]).0@ < key@,
            decreases self.entries.len() - i,
        {
            i += 1;
        }
        assert(absent_before(before, key, i as int));
        if i < self.entries.len() && self.entries[i].0 == key {
            self.entries.set(i, (key, value));
            proof {
                let after = self.entries@;
                assert(after == before.update(i as int, (before[i as int].0, value)));
                assert forall|q: Word| lookup(after, q) == (if q == key {
                    Some(value)
                } else {
                    lookup(before, q)
                }) by {
                    lemma_lookup_update(before, i as int, value, q);
                }
                assert(as_map(after) =~= as_map(before).insert(key, value));
                assert(ascending(before) ==> ascending(after)) by {
                    assert forall|a: int, b: int| ascending(before) && 0 <= a < b < after.len() implies (
                    #[trigger] after[a]).0@ < (#[trigger] after[b]).0@ by {
                        assert(after[a].0 == before[a].0);
                        assert(after[b].0 == before[b].0);
                    }
                }
            }
        } else {
            proof {
                if i < before.len() {
                    Word::lemma_order(before[i as int].0, key);
                    assert(key@ < before[i as int].0@);
                }
            }
            self.entries.insert(i, (key, value));
            proof {
                let after = self.entries@;
                assert(after == before.insert(i as int, (key, value)));
                assert forall|q: Word| lookup(after, q) == (if q == key {
                    Some(value)
                } else {
                    lookup(before, q)
                }) by {
                    lemma_lookup_insert(before, i as int, key, value, q);
                }
                assert(as_map(after) =~= as_map(before).insert(key, value));
                assert(ascending(before) ==> ascending(after)) by {
                    assert forall|a: int, b: int| ascending(before) && 0 <= a < b < after.len() implies (
                    #[trigger] after[a]).0@ < (#[trigger] after[b]).0@ by {
                        if b < i {
                            assert(after[a] == before[a] && after[b] == before[b]);
                        } else if b == i {
                            assert(after[a] == before[a]);
                        } else if a < i {
                            assert(after[a] == before[a] && after[b] == before[b - 1]);
                            if (b - 1) > i {
                                assert(before[i as int].0@ < before[b - 1].0@);
                            }
                        } else if a == i {
                            assert(after[b] == before[b - 1]);
                            if (b - 1) > i {
                                assert(before[i as int].0@ < before[b - 1].0@);
                            }
                        } else {
                            assert(after[a] == before[a - 1] && after[b] == before[b - 1]);
                        }
                    }
                }
            }
        }
    }

    /// Writes the pairs of `writes` one after the other: of two writes to one key
    /// the later one stays.
    pub fn write_all(&mut self, writes: &Vec<(Word, Word)>)
        ensures
            final(self)@ == upserted(old(self)@, writes@),
            old(self).wf() ==> final(self).wf(),
    {
        let ghost start = self@;
        let mut i: usize = 0;
        while i < writes.len()
            invariant
                i <= writes.len(),
                self@ == upserted(start, writes@.take(i as int)),
                old(self).wf() ==> self.wf(),
            decreases writes.len() - i,
        {
            self.insert(writes[i].0, writes[i].1);
            assert(writes@.take(i + 1).drop_last() =~= writes@.take(i as int));
            i += 1;
        }
        assert(writes@.take(writes.len() as int) =~= writes@);
    }

    /// A copy of the table.
    pub fn copy(&self) -> (t: StorageTable)
        ensures
            t@ == self@,
            t.pairs() == self.pairs(),
            self.wf() ==> t.wf(),
    {
        let mut entries: Vec<(Word, Word)> = Vec::new();
        let mut i: usize = 0;
        while i < self.entries.len()
            invariant
                i <= self.entries.len(),
                entries@ == self.entries@.take(i as int),
            decreases self.entries.len() - i,
        {
            entries.push(self.entries[i]);
            assert(self.entries@.take(i as int).push(self.entries@[i as int]) =~= self.entries@.take(
                i + 1,
            ));
            i += 1;
        }
        assert(self.entries@.take(self.entries.len() as int) =~= self.entries@);
        StorageTable { entries }
    }

    /// The pairs of the table, in ascending key order.
    pub fn entries(&self) -> (r: &Vec<(Word, Word)>)
        ensures
            r@ == self.pairs(),
            self.wf() ==> ascending(r@),
            as_map(r@) == self@,
    {
        &self.entries
    }
}

} // verus!
