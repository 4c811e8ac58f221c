//! The state diff collector: folds the account changes of one execution into the
//! genesis entry of the one address of interest.

use crate::hexcode::{encode_prefixed, prefixed_hex};
use crate::primitives::{Address, Word};
use crate::state::{change_views, AccountChange, ChangeView};
use crate::storage::{upserted, StorageTable};
use vstd::prelude::*;

verus! {

/// A genesis account entry, as a mathematical value.
pub struct EntryView {
    pub code: Seq<char>,
    pub storage: Map<Word, Word>,
    pub balance: Word,
    pub nonce: Word,
}

impl EntryView {
    /// The entry of an account that does not exist: no code text, no storage, zero
    /// balance and nonce.
    pub open spec fn empty() -> EntryView {
        EntryView {
            code: Seq::empty(),
            storage: Map::empty(),
            balance: Word { hi: 0, lo: 0 },
            nonce: Word { hi: 0, lo: 0 },
        }
    }
}

/// The persisted form of an account: its code as `0x` and hexadecimal digits, its
/// storage in ascending key order, its balance and its nonce.
#[derive(Clone, Debug, PartialEq, Eq)]
pub struct GenesisAccount {
    pub code: String,
    pub storage: StorageTable,
    pub balance: Word,
    pub nonce: Word,
}

impl View for GenesisAccount {
    type V = EntryView;

    open spec fn view(&self) -> EntryView {
        EntryView {
            code: self.code@,
            storage: self.storage@,
            balance: self.balance,
            nonce: self.nonce,
        }
    }
}

impl GenesisAccount {
    /// The entry of an account that does not exist.
    pub fn empty() -> (e: GenesisAccount)
        ensures
            e@ == EntryView::empty(),
            e.storage.wf(),
    {
        GenesisAccount {
            code: String::new(),
            storage: StorageTable::new(),
            balance: Word::zero(),
            nonce: Word::zero(),
        }
    }

    /// Two entries with the same view, each with its table in key order, are the
    /// same text for text: code, balance and nonce are equal, and the storage
    /// pairs come in the same order.
    pub proof fn lemma_same_view_same_listing(&self, other: &GenesisAccount)
        requires
            self@ == other@,
            self.storage.wf(),
            other.storage.wf(),
        ensures
            self.code@ == other.code@,
            self.balance == other.balance,
            self.nonce == other.nonce,
            self.storage.pairs() == other.storage.pairs(),
    {
        self.storage.lemma_same_view_same_pairs(&other.storage);
    }

    /// A copy of the entry.
    pub fn copy(&self) -> (e: GenesisAccount)
        ensures
            e@ == self@,
            self.storage.wf() ==> e.storage.wf(),
    {
        GenesisAccount {
            code: self.code.clone(),
            storage: self.storage.copy(),
            balance: self.balance,
            nonce: self.nonce,
        }
    }
}

/// The entry after one change. A change of another address leaves it as it is. A
/// modification of `target` overwrites balance and nonce, replaces the code text
/// where the change brings code, and writes the change's storage pairs over the
/// table. A deletion of `target` leaves the entry of an account that does not
/// exist.
pub open spec fn folded(entry: EntryView, change: ChangeView, target: Address) -> EntryView {
    if change.address() != target {
        entry
    } else {
        match change {
            ChangeView::Modify { balance, nonce, code, storage, .. } => EntryView {
                code: match code {
                    Some(bytes) => prefixed_hex(bytes),
                    None => entry.code,
                },
                storage: upserted(entry.storage, storage),
                balance,
                nonce,
            },
            ChangeView::Delete { .. } => EntryView::empty(),
        }
    }
}

/// The entry of `target` after all the changes, folded in order from the entry of
/// an account that does not exist.
pub open spec fn collected(changes: Seq<ChangeView>, target: Address) -> EntryView
    decreases changes.len(),
{
    if changes.len() == 0 {
        EntryView::empty()
    } else {
        folded(collected(changes.drop_last(), target), changes.last(), target)
    }
}

/// Whether one of the changes deletes `target`.
pub open spec fn deletes(changes: Seq<ChangeView>, target: Address) -> bool {
    exists|i: int|
        0 <= i < changes.len() && #[trigger] changes[i] == (ChangeView::Delete { address: target })
}

/// What the collector hands back: the entry, and whether a deletion of the target
/// was among the changes, so that the caller can report it.
#[derive(Clone, Debug, PartialEq, Eq)]
pub struct Collected {
    pub account: GenesisAccount,
    pub deleted: bool,
}

/// Folds one change into the entry.
pub fn fold_change(entry: &mut GenesisAccount, change: &AccountChange, target: &Address)
    ensures
        final(entry)@ == folded(old(entry)@, change@, *target),
        old(entry).storage.wf() ==> final(entry).storage.wf(),
{
    match change {
        AccountChange::Modify { address, balance, nonce, code, storage, reset_storage } => {
            if *address == *target {
                entry.balance = *balance;
                entry.nonce = *nonce;
                match code {
                    Some(bytes) => {
                        entry.code = encode_prefixed(bytes.as_slice());
                    },
                    None => {},
                }
                entry.storage.write_all(storage);
            }
        },
        AccountChange::Delete { address } => {
            if *address == *target {
                *entry = GenesisAccount::empty();
            }
        },
    }
}

/// Produces the genesis entry of `target` from the changes of one execution.
/// Changes of other addresses are passed over.
pub fn collect(changes: &Vec<AccountChange>, target: &Address) -> (r: Collected)
    ensures
        r.account@ == collected(change_views(changes@), *target),
        r.account.storage.wf(),
        r.deleted == deletes(change_views(changes@), *target),
{
    let ghost all = change_views(changes@);
    let mut account = GenesisAccount::empty();
    let mut deleted = false;
    let mut i: usize = 0;
    while i < changes.len()
        invariant
            i <= changes.len(),
            all == change_views(changes@),
            account@ == collected(all.take(i as int), *target),
            account.storage.wf(),
            deleted == deletes(all.take(i as int), *target),
        decreases changes.len() - i,
    {
        let ghost before = all.take(i as int);
        let ghost next = all.take(i + 1);
        fold_change(&mut account, &changes[i], target);
        proof {
            assert(next.drop_last() =~= before);
            assert(next.last() == changes@[i as int]@);
        }
        match &changes[i] {
            AccountChange::Delete { address } => {
                if *address == *target {
                    deleted = true;
                    assert(next[i as int] == (ChangeView::Delete { address: *target }));
                }
            },
            _ => {},
        }
        proof {
            if deletes(before, *target) {
                let j = choose|j: int|
                    0 <= j < before.len() && #[trigger] before[j] == (ChangeView::Delete {
                        address: *target,
                    });
                assert(next[j] == before[j]);
            }
            if deletes(next, *target) && !deleted {
                let j = choose|j: int|
                    0 <= j < next.len() && #[trigger] next[j] == (ChangeView::Delete {
                        address: *target,
                    });
                if j < i {
                    assert(before[j] == next[j]);
                }
            }
        }
        i += 1;
    }
    assert(all.take(changes.len() as int) =~= all);
    Collected { account, deleted }
}

/// Of the writes to one key the last one stays: a write that no later write to
/// the same key follows decides what the key is bound to.
pub proof fn lemma_last_write_wins(m: Map<Word, Word>, writes: Seq<(Word, Word)>, i: int)
    requires
        0 <= i < writes.len(),
        forall|j: int| i < j < writes.len() ==> (#[trigger] writes[j]).0 != writes[i].0,
    ensures
        upserted(m, writes).dom().contains(writes[i].0),
        upserted(m, writes)[writes[i].0] == writes[i].1,
    decreases writes.len(),
{
    let rest = writes.drop_last();
    if i < writes.len() - 1 {
        assert(rest[i] == writes[i]);
        assert forall|j: int| i < j < rest.len() implies (#[trigger] rest[j]).0 != rest[i].0 by {
            assert(rest[j] == writes[j]);
        }
        lemma_last_write_wins(m, rest, i);
        assert(writes.last().0 != writes[i].0);
    }
}

/// A key that no write names is bound as it was before the writes.
pub proof fn lemma_unwritten_key_kept(m: Map<Word, Word>, writes: Seq<(Word, Word)>, key: Word)
    requires
        forall|j: int| 0 <= j < writes.len() ==> (#[trigger] writes[j]).0 != key,
    ensures
        upserted(m, writes).dom().contains(key) == m.dom().contains(key),
        m.dom().contains(key) ==> upserted(m, writes)[key] == m[key],
    decreases writes.len(),
{
    if writes.len() > 0 {
        let rest = writes.drop_last();
        assert forall|j: int| 0 <= j < rest.len() implies (#[trigger] rest[j]).0 != key by {
            assert(rest[j] == writes[j]);
        }
        lemma_unwritten_key_kept(m, rest, key);
        assert(writes.last() == writes[writes.len() - 1]);
    }
}

/// A constructor that writes `k1: v1`, then `k2: v2`, then `k1: v3` leaves the
/// table `{k1: v3, k2: v2}`.
pub proof fn lemma_overwrite_then_table(k1: Word, v1: Word, k2: Word, v2: Word, v3: Word)
    requires
        k1 != k2,
    ensures
        upserted(Map::empty(), seq![(k1, v1), (k2, v2), (k1, v3)]) == Map::<Word, Word>::empty().insert(
            k1,
            v3,
        ).insert(k2, v2),
{
    let w = seq![(k1, v1), (k2, v2), (k1, v3)];
    let w2 = seq![(k1, v1), (k2, v2)];
    let w1 = seq![(k1, v1)];
    assert(w.drop_last() =~= w2);
    assert(w2.drop_last() =~= w1);
    assert(w1.drop_last() =~= Seq::<(Word, Word)>::empty());
    reveal_with_fuel(upserted, 4);
    assert(upserted(Map::empty(), w) =~= Map::<Word, Word>::empty().insert(k1, v3).insert(k2, v2));
}

/// The entry of a contract whose constructor writes `k1: v1`, then `k2: v2`, then
/// `k1: v3` has the storage table `{k1: v3, k2: v2}`, whatever else the one
/// change of the contract holds.
pub proof fn lemma_overwritten_entry(
    target: Address,
    balance: Word,
    nonce: Word,
    code: Option<Seq<u8>>,
    reset_storage: bool,
    k1: Word,
    v1: Word,
    k2: Word,
    v2: Word,
    v3: Word,
)
    requires
        k1 != k2,
    ensures
        collected(
            seq![
                ChangeView::Modify {
                    address: target,
                    balance,
                    nonce,
                    code,
                    storage: seq![(k1, v1), (k2, v2), (k1, v3)],
                    reset_storage,
                },
            ],
            target,
        ).storage == Map::<Word, Word>::empty().insert(k1, v3).insert(k2, v2),
{
    let change = ChangeView::Modify {
        address: target,
        balance,
        nonce,
        code,
        storage: seq![(k1, v1), (k2, v2), (k1, v3)],
        reset_storage,
    };
    let changes = seq![change];
    assert(changes.drop_last() =~= Seq::<ChangeView>::empty());
    assert(changes.last() == change);
    assert(collected(changes.drop_last(), target) == EntryView::empty());
    lemma_overwrite_then_table(k1, v1, k2, v2, v3);
}

/// A change of another address has no part in the entry: with it taken out of
/// the sequence the entry is the same.
pub proof fn lemma_bystander_ignored(changes: Seq<ChangeView>, i: int, target: Address)
    requires
        0 <= i < changes.len(),
        changes[i].address() != target,
    ensures
        collected(changes.remove(i), target) == collected(changes, target),
    decreases changes.len(),
{
    let shorter = changes.remove(i);
    if i == changes.len() - 1 {
        assert(shorter =~= changes.drop_last());
    } else {
        assert(shorter.len() > 0);
        assert(shorter.last() == changes.last());
        assert(shorter.drop_last() =~= changes.drop_last().remove(i));
        assert(changes.drop_last()[i] == changes[i]);
        lemma_bystander_ignored(changes.drop_last(), i, target);
    }
}

/// Where no change is about `target`, the entry is that of an account that does
/// not exist.
pub proof fn lemma_untouched_is_empty(changes: Seq<ChangeView>, target: Address)
    requires
        forall|i: int| 0 <= i < changes.len() ==> (#[trigger] changes[i]).address() != target,
    ensures
        collected(changes, target) == EntryView::empty(),
    decreases changes.len(),
{
    if changes.len() > 0 {
        let rest = changes.drop_last();
        assert forall|i: int| 0 <= i < rest.len() implies (#[trigger] rest[i]).address() != target by {
            assert(rest[i] == changes[i]);
        }
        lemma_untouched_is_empty(rest, target);
        assert(changes.last() == changes[changes.len() - 1]);
    }
}

} // verus!
