//! Accounts, account changes and the in-memory world state.

use crate::assoc::{absent_before, first_index, lemma_first_index, lemma_first_index_is, lemma_first_index_none, lemma_lookup_push, lemma_lookup_update, lookup};
use crate::primitives::{Address, Word};
use crate::storage::{upserted, StorageTable};
use vstd::prelude::*;

verus! {

/// What an account is, as a mathematical value.
pub struct AccountView {
    pub balance: Word,
    pub nonce: Word,
    pub code: Seq<u8>,
    pub storage: Map<Word, Word>,
}

impl AccountView {
    /// The account that an address has when nothing was ever written to it.
    pub open spec fn empty() -> AccountView {
        AccountView {
            balance: Word { hi: 0, lo: 0 },
            nonce: Word { hi: 0, lo: 0 },
            code: Seq::empty(),
            storage: Map::empty(),
        }
    }
}

/// The unit of world state.
#[derive(Clone, Debug, PartialEq, Eq)]
pub struct Account {
    pub balance: Word,
    pub nonce: Word,
    pub code: Vec<u8>,
    pub storage: StorageTable,
}

impl View for Account {
    type V = AccountView;

    open spec fn view(&self) -> AccountView {
        AccountView {
            balance: self.balance,
            nonce: self.nonce,
            code: self.code@,
            storage: self.storage@,
        }
    }
}

/// A copy of a byte vector.
pub fn copy_bytes(bytes: &Vec<u8>) -> (r: Vec<u8>)
    ensures
        r@ == bytes@,
{
    let mut r: Vec<u8> = Vec::new();
    let mut i: usize = 0;
    while i < bytes.len()
        invariant
            i <= bytes.len(),
            r@ == bytes@.take(i as int),
        decreases bytes.len() - i,
    {
        r.push(bytes[i]);
        assert(bytes@.take(i as int).push(bytes@[i as int]) =~= bytes@.take(i + 1));
        i += 1;
    }
    assert(bytes@.take(bytes.len() as int) =~= bytes@);
    r
}

impl Account {
    /// The account with zero balance and nonce, no code and no storage.
    pub fn empty() -> (a: Account)
        ensures
            a@ == AccountView::empty(),
            a.storage.wf(),
    {
        Account {
            balance: Word::zero(),
            nonce: Word::zero(),
            code: Vec::new(),
            storage: StorageTable::new(),
        }
    }

    /// A copy of the account.
    pub fn copy(&self) -> (a: Account)
        ensures
            a@ == self@,
            self.storage.wf() ==> a.storage.wf(),
    {
        Account {
            balance: self.balance,
            nonce: self.nonce,
            code: copy_bytes(&self.code),
            storage: self.storage.copy(),
        }
    }
}

/// One account-level mutation, as a mathematical value.
pub enum ChangeView {
    Modify {
        address: Address,
        balance: Word,
        nonce: Word,
        code: Option<Seq<u8>>,
        storage: Seq<(Word, Word)>,
        reset_storage: bool,
    },
    Delete { address: Address },
}

impl ChangeView {
    /// The address that the change is about.
    pub open spec fn address(self) -> Address {
        match self {
            ChangeView::Modify { address, .. } => address,
            ChangeView::Delete { address } => address,
        }
    }

    /// The account that the change turns `before` into.
    pub open spec fn applied_to(self, before: AccountView) -> AccountView {
        match self {
            ChangeView::Modify { balance, nonce, code, storage, reset_storage, .. } => AccountView {
                balance,
                nonce,
                code: match code {
                    Some(c) => c,
                    None => before.code,
                },
                storage: upserted(
                    if reset_storage {
                        Map::empty()
                    } else {
                        before.storage
                    },
                    storage,
                ),
            },
            ChangeView::Delete { .. } => AccountView::empty(),
        }
    }
}

/// One account-level mutation reported by an execution: either an overwrite of
/// balance and nonce with an optional new code, storage writes and an optional
/// wipe of the storage before them, or the deletion of the account.
#[derive(Clone, Debug, PartialEq, Eq)]
pub enum AccountChange {
    Modify {
        address: Address,
        balance: Word,
        nonce: Word,
        code: Option<Vec<u8>>,
        storage: Vec<(Word, Word)>,
        reset_storage: bool,
    },
    Delete { address: Address },
}

impl View for AccountChange {
    type V = ChangeView;

    open spec fn view(&self) -> ChangeView {
        match self {
            AccountChange::Modify { address, balance, nonce, code, storage, reset_storage } => ChangeView::Modify {
                address: *address,
                balance: *balance,
                nonce: *nonce,
                code: match code {
                    Some(c) => Some(c@),
                    None => None,
                },
                storage: storage@,
                reset_storage: *reset_storage,
            },
            AccountChange::Delete { address } => ChangeView::Delete { address: *address },
        }
    }
}

/// The changes of a sequence, each as a mathematical value.
pub open spec fn change_views(changes: Seq<AccountChange>) -> Seq<ChangeView> {
    changes.map_values(|c: AccountChange| c@)
}

/// The world state after one change.
pub open spec fn apply_change(m: Map<Address, AccountView>, c: ChangeView) -> Map<
    Address,
    AccountView,
> {
    m.insert(c.address(), c.applied_to(m[c.address()]))
}

/// The world state after a sequence of changes, applied in order.
pub open spec fn apply_changes(m: Map<Address, AccountView>, changes: Seq<ChangeView>) -> Map<
    Address,
    AccountView,
>
    decreases changes.len(),
{
    if changes.len() == 0 {
        m
    } else {
        apply_change(apply_changes(m, changes.drop_last()), changes.last())
    }
}

/// The block and transaction environment that executing code can observe.
#[derive(Clone, Copy, Debug, PartialEq, Eq, Structural)]
pub struct Environment {
    pub gas_price: Word,
    pub origin: Address,
    pub chain_id: Word,
    pub block_number: Word,
    pub block_coinbase: Address,
    pub block_timestamp: Word,
    pub block_difficulty: Word,
    pub block_gas_limit: Word,
    pub block_base_fee_per_gas: Word,
}

impl Environment {
    /// The environment of a genesis deployment on the chain `chain_id`: block zero,
    /// no fees, no coinbase, and the largest block gas limit.
    pub fn for_chain(chain_id: Word) -> (e: Environment)
        ensures
            e == (Environment {
                gas_price: Word { hi: 0, lo: 0 },
                origin: Address { hi: 0, lo: 0 },
                chain_id,
                block_number: Word { hi: 0, lo: 0 },
                block_coinbase: Address { hi: 0, lo: 0 },
                block_timestamp: Word { hi: 0, lo: 0 },
                block_difficulty: Word { hi: 0, lo: 0 },
                block_gas_limit: Word { hi: u128::MAX, lo: u128::MAX },
                block_base_fee_per_gas: Word { hi: 0, lo: 0 },
            }),
    {
        Environment {
            gas_price: Word::zero(),
            origin: Address::zero(),
            chain_id,
            block_number: Word::zero(),
            block_coinbase: Address::zero(),
            block_timestamp: Word::zero(),
            block_difficulty: Word::zero(),
            block_gas_limit: Word::max_value(),
            block_base_fee_per_gas: Word::zero(),
        }
    }
}

/// The accounts of a sequence of entries, each as a mathematical value.
pub open spec fn entry_views(entries: Seq<(Address, Account)>) -> Seq<(Address, AccountView)> {
    entries.map_values(|e: (Address, Account)| (e.0, e.1@))
}

/// The total map that a sequence of entries stands for: an address without an
/// entry has the empty account.
pub open spec fn accounts_of(entries: Seq<(Address, Account)>) -> Map<Address, AccountView> {
    Map::total(
        |a: Address|
            match lookup(entry_views(entries), a) {
                Some(v) => v,
                None => AccountView::empty(),
            },
    )
}

/// Whether every nonce of a world state leaves room to be counted on: none is
/// within 2^128 of the largest word. The virtual machine adds one to a nonce for
/// every creation, without a check.
pub open spec fn nonces_have_room(state: Map<Address, AccountView>) -> bool {
    forall|a: Address| (#[trigger] state[a]).nonce.hi < u128::MAX
}

/// The world state in which every account is empty.
pub open spec fn empty_state() -> Map<Address, AccountView> {
    Map::total(|a: Address| AccountView::empty())
}

/// The account database of one simulated deployment. It lives in memory only.
/// Its view gives every address an account: the empty one where nothing was
/// written.
#[derive(Clone, Debug)]
pub struct WorldState {
    env: Environment,
    accounts: Vec<(Address, Account)>,
}

impl View for WorldState {
    type V = Map<Address, AccountView>;

    closed spec fn view(&self) -> Map<Address, AccountView> {
        accounts_of(self.accounts@)
    }
}

impl WorldState {
    /// The environment that the state was made with.
    pub closed spec fn environment(&self) -> Environment {
        self.env
    }

    /// The state in which every account is empty.
    pub fn new(env: Environment) -> (s: WorldState)
        ensures
            s.environment() == env,
            s@ == empty_state(),
    {
        let s = WorldState { env, accounts: Vec::new() };
        proof {
            assert forall|a: Address| #[trigger] s@[a] == AccountView::empty() by {
                lemma_first_index(entry_views(s.accounts@), a);
            }
            assert(s@ =~= empty_state());
        }
        s
    }

    /// The environment that the state was made with.
    pub fn env(&self) -> (e: &Environment)
        ensures
            *e == self.environment(),
    {
        &self.env
    }

    /// The position of the entry that decides what `address` holds, if there is one.
    fn position(&self, address: &Address) -> (r: Option<usize>)
        ensures
            match r {
                Some(i) => i < self.accounts@.len() && self.accounts@[i as int].0 == *address
                    && absent_before(entry_views(self.accounts@), *address, i as int)
                    && self@[*address] == self.accounts@[i as int].1@,
                None => absent_before(
                    entry_views(self.accounts@),
                    *address,
                    self.accounts@.len() as int,
                ) && self@[*address] == AccountView::empty(),
            },
    {
        let ghost views = entry_views(self.accounts@);
        let mut i: usize = 0;
        while i < self.accounts.len()
            invariant
                i <= self.accounts.len(),
                views == entry_views(self.accounts@),
                absent_before(views, *address, i as int),
            decreases self.accounts.len() - i,
        {
            if self.accounts[i].0 == *address {
                proof {
                    lemma_first_index_is(views, *address, i as int);
                }
                return Some(i);
            }
            assert(views[i as int].0 != *address);
            i += 1;
        }
        proof {
            lemma_first_index_none(views, *address);
        }
        None
    }

    /// The account at `address`, or `None` where it is the empty account because
    /// nothing was written there.
    pub fn find(&self, address: &Address) -> (r: Option<&Account>)
        ensures
            match r {
                Some(a) => a@ == self@[*address],
                None => self@[*address] == AccountView::empty(),
            },
    {
        match self.position(address) {
            Some(i) => Some(&self.accounts[i].1),
            None => None,
        }
    }

    /// The account at `address`; the empty account if nothing was written there.
    pub fn get_account(&self, address: &Address) -> (a: Account)
        ensures
            a@ == self@[*address],
    {
        match self.find(address) {
            Some(a) => a.copy(),
            None => Account::empty(),
        }
    }

    /// The storage value of `address` at `key`; zero where none was written.
    pub fn storage_at(&self, address: &Address, key: &Word) -> (w: Word)
        ensures
            w == (if self@[*address].storage.dom().contains(*key) {
                self@[*address].storage[*key]
            } else {
                Word { hi: 0, lo: 0 }
            }),
    {
        match self.find(address) {
            Some(account) => match account.storage.get(key) {
                Some(value) => value,
                None => Word::zero(),
            },
            None => Word::zero(),
        }
    }

    /// Whether every nonce of the state leaves room to be counted on.
    pub fn nonces_have_room(&self) -> (b: bool)
        ensures
            b == nonces_have_room(self@),
    {
        let ghost views = entry_views(self.accounts@);
        let mut i: usize = 0;
        while i < self.accounts.len()
            invariant
                i <= self.accounts.len(),
                views == entry_views(self.accounts@),
                forall|k: int|
                    0 <= k < i && first_index(views, (#[trigger] views[k]).0) == k
                        ==> views[k].1.nonce.hi < u128::MAX,
            decreases self.accounts.len() - i,
        {
            if self.accounts[i].1.nonce.hi == u128::MAX {
                let address = self.accounts[i].0;
                match self.position(&address) {
                    Some(j) => {
                        proof {
                            lemma_first_index_is(views, address, j as int);
                        }
                        if j == i {
                            assert(self@[address].nonce.hi == u128::MAX);
                            return false;
                        }
                    },
                    None => {
                        assert(views[i as int].0 == address);
                    },
                }
            }
            i += 1;
        }
        proof {
            assert forall|a: Address| (#[trigger] self@[a]).nonce.hi < u128::MAX by {
                lemma_first_index(views, a);
                let f = first_index(views, a);
                if f >= 0 {
                    assert(views[f].0 == a);
                }
            }
        }
        true
    }

    /// The entries that hold the accounts. Of two entries with one address the
    /// earlier one decides.
    pub fn entries(&self) -> (r: &Vec<(Address, Account)>)
        ensures
            accounts_of(r@) == self@,
    {
        &self.accounts
    }

    /// Puts `account` at `address`.
    pub fn set_account(&mut self, address: Address, account: Account)
        ensures
            final(self)@ == old(self)@.insert(address, account@),
            final(self).environment() == old(self).environment(),
    {
        let ghost before = entry_views(self.accounts@);
        let ghost value = account@;
        match self.position(&address) {
            Some(i) => {
                self.accounts.set(i, (address, account));
                proof {
                    let after = entry_views(self.accounts@);
                    assert(after =~= before.update(i as int, (before[i as int].0, value)));
                    assert forall|q: Address| #[trigger] lookup(after, q) == (if q == address {
                        Some(value)
                    } else {
                        lookup(before, q)
                    }) by {
                        lemma_lookup_update(before, i as int, value, q);
                    }
                }
            },
            None => {
                self.accounts.push((address, account));
                proof {
                    let after = entry_views(self.accounts@);
                    assert(after =~= before.push((address, value)));
                    lemma_first_index_none(before, address);
                    assert forall|q: Address| #[trigger] lookup(after, q) == (if q == address {
                        Some(value)
                    } else {
                        lookup(before, q)
                    }) by {
                        lemma_lookup_push(before, address, value, q);
                    }
                }
            },
        }
        assert(self@ =~= old(self)@.insert(address, value));
    }

    /// Applies one change.
    pub fn apply_one(&mut self, change: &AccountChange)
        ensures
            final(self)@ == apply_change(old(self)@, change@),
            final(self).environment() == old(self).environment(),
    {
        match change {
            AccountChange::Modify { address, balance, nonce, code, storage, reset_storage } => {
                let current = self.find(address);
                let new_code = match code {
                    Some(c) => copy_bytes(c),
                    None => match current {
                        Some(a) => copy_bytes(&a.code),
                        None => Vec::new(),
                    },
                };
                let mut table = match current {
                    Some(a) => if *reset_storage {
                        StorageTable::new()
                    } else {
                        a.storage.copy()
                    },
                    None => StorageTable::new(),
                };
                table.write_all(storage);
                let account = Account { balance: *balance, nonce: *nonce, code: new_code, storage: table };
                self.set_account(*address, account);
            },
            AccountChange::Delete { address } => {
                self.set_account(*address, Account::empty());
            },
        }
    }

    /// Applies the changes in order. The call cannot fail part-way: every change
    /// lands.
    pub fn apply(&mut self, changes: &Vec<AccountChange>)
        ensures
            final(self)@ == apply_changes(old(self)@, change_views(changes@)),
            final(self).environment() == old(self).environment(),
    {
        let ghost start = self@;
        let ghost all = change_views(changes@);
        let mut i: usize = 0;
        while i < changes.len()
            invariant
                i <= changes.len(),
                all == change_views(changes@),
                self@ == apply_changes(start, all.take(i as int)),
                self.environment() == old(self).environment(),
            decreases changes.len() - i,
        {
            self.apply_one(&changes[i]);
            proof {
                let next = all.take(i + 1);
                assert(next.drop_last() =~= all.take(i as int));
                assert(next.last() == changes@[i as int]@);
            }
            i += 1;
        }
        assert(all.take(changes.len() as int) =~= all);
    }

    /// A copy of the state that can be changed and thrown away without any effect
    /// on this one.
    pub fn snapshot(&self) -> (s: WorldState)
        ensures
            s@ == self@,
            s.environment() == self.environment(),
    {
        let mut accounts: Vec<(Address, Account)> = Vec::new();
        let mut i: usize = 0;
        while i < self.accounts.len()
            invariant
                i <= self.accounts.len(),
                entry_views(accounts@) == entry_views(self.accounts@).take(i as int),
            decreases self.accounts.len() - i,
        {
            let ghost before = entry_views(accounts@);
            let entry = (self.accounts[i].0, self.accounts[i].1.copy());
            accounts.push(entry);
            assert(entry_views(accounts@) =~= before.push((entry.0, entry.1@)));
            assert(entry_views(self.accounts@).take(i as int).push(
                entry_views(self.accounts@)[i as int],
            ) =~= entry_views(self.accounts@).take(i + 1));
            i += 1;
        }
        assert(entry_views(self.accounts@).take(self.accounts.len() as int) =~= entry_views(
            self.accounts@,
        ));
        WorldState { env: self.env, accounts }
    }
}

} // verus!
