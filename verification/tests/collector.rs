use genesis_gen::collector::{collect, fold_change, GenesisAccount};
use genesis_gen::primitives::{Address, Word};
use genesis_gen::state::AccountChange;
use genesis_gen::storage::StorageTable;

fn word(n: u64) -> Word {
    Word::from_u64(n)
}

fn target() -> Address {
    Address { hi: 0, lo: 0x1000 }
}

fn other() -> Address {
    Address { hi: 0, lo: 0xbeef }
}

fn modify(address: Address, balance: u64, code: Option<Vec<u8>>, storage: Vec<(Word, Word)>) -> AccountChange {
    AccountChange::Modify {
        address,
        balance: word(balance),
        nonce: word(1),
        code,
        storage,
        reset_storage: false,
    }
}

fn table(pairs: &[(u64, u64)]) -> StorageTable {
    let mut t = StorageTable::new();
    for (k, v) in pairs {
        t.insert(word(*k), word(*v));
    }
    t
}

#[test]
fn collect_of_nothing_is_the_empty_entry() {
    let got = collect(&vec![], &target());
    assert_eq!(got.account, GenesisAccount::empty());
    assert_eq!(got.account.code, "");
    assert_eq!(got.account.balance, word(0));
    assert_eq!(got.account.nonce, word(0));
    assert_eq!(got.account.storage.len(), 0);
    assert!(!got.deleted);
}

#[test]
fn collect_copies_the_fields_of_the_target() {
    let changes = vec![modify(target(), 7, Some(vec![0x60, 0x01, 0xab]), vec![(word(2), word(5))])];
    let got = collect(&changes, &target());
    assert_eq!(
        got.account,
        GenesisAccount {
            code: "0x6001ab".to_string(),
            storage: table(&[(2, 5)]),
            balance: word(7),
            nonce: word(1),
        }
    );
    assert!(!got.deleted);
}

#[test]
fn collect_merges_storage_with_the_last_write_winning() {
    let k1 = word(1);
    let k2 = word(2);
    let changes = vec![modify(
        target(),
        0,
        None,
        vec![(k1, word(0x11)), (k2, word(0x22)), (k1, word(0x33))],
    )];
    let got = collect(&changes, &target());
    assert_eq!(got.account.storage.entries(), &vec![(k1, word(0x33)), (k2, word(0x22))]);
}

#[test]
fn collect_merges_storage_across_changes() {
    let changes = vec![
        modify(target(), 1, Some(vec![1]), vec![(word(5), word(50)), (word(1), word(10))]),
        modify(target(), 2, None, vec![(word(5), word(51)), (word(3), word(30))]),
    ];
    let got = collect(&changes, &target());
    assert_eq!(got.account.code, "0x01");
    assert_eq!(got.account.balance, word(2));
    assert_eq!(
        got.account.storage.entries(),
        &vec![(word(1), word(10)), (word(3), word(30)), (word(5), word(51))]
    );
}

#[test]
fn collect_lists_storage_in_key_order_across_the_halves() {
    let big = Word { hi: 1, lo: 0 };
    let changes = vec![modify(
        target(),
        0,
        None,
        vec![(big, word(1)), (Word { hi: 0, lo: u128::MAX }, word(2)), (word(0), word(3))],
    )];
    let got = collect(&changes, &target());
    assert_eq!(
        got.account.storage.entries(),
        &vec![(word(0), word(3)), (Word { hi: 0, lo: u128::MAX }, word(2)), (big, word(1))]
    );
}

#[test]
fn collect_ignores_other_addresses() {
    let mine = modify(target(), 7, Some(vec![0xfe]), vec![(word(1), word(2))]);
    let alone = collect(&vec![mine.clone()], &target());
    let crowded = collect(
        &vec![
            modify(other(), 99, Some(vec![1, 2]), vec![(word(1), word(9))]),
            mine,
            modify(Address::zero(), 3, None, vec![]),
            AccountChange::Delete { address: other() },
        ],
        &target(),
    );
    assert_eq!(alone, crowded);
    assert_eq!(crowded.account.balance, word(7));
    assert!(!crowded.deleted);
}

#[test]
fn collect_for_an_untouched_address_is_empty() {
    let changes = vec![modify(other(), 99, Some(vec![1, 2]), vec![(word(1), word(9))])];
    let got = collect(&changes, &target());
    assert_eq!(got.account, GenesisAccount::empty());
}

#[test]
fn collect_reports_a_deletion_of_the_target() {
    let changes = vec![
        modify(target(), 7, Some(vec![0xfe]), vec![(word(1), word(2))]),
        AccountChange::Delete { address: target() },
    ];
    let got = collect(&changes, &target());
    assert!(got.deleted);
    assert_eq!(got.account, GenesisAccount::empty());
}

#[test]
fn collect_after_a_deletion_starts_anew() {
    let changes = vec![
        modify(target(), 7, Some(vec![0xfe]), vec![(word(1), word(2))]),
        AccountChange::Delete { address: target() },
        modify(target(), 8, None, vec![(word(3), word(4))]),
    ];
    let got = collect(&changes, &target());
    assert!(got.deleted);
    assert_eq!(
        got.account,
        GenesisAccount { code: String::new(), storage: table(&[(3, 4)]), balance: word(8), nonce: word(1) }
    );
}

#[test]
fn collect_keeps_the_code_where_a_change_brings_none() {
    let changes = vec![
        modify(target(), 1, Some(vec![0xaa, 0xbb]), vec![]),
        modify(target(), 2, None, vec![]),
    ];
    assert_eq!(collect(&changes, &target()).account.code, "0xaabb");
}

#[test]
fn collect_writes_empty_code_as_the_bare_prefix() {
    let changes = vec![modify(target(), 1, Some(vec![]), vec![])];
    assert_eq!(collect(&changes, &target()).account.code, "0x");
}

#[test]
fn fold_change_passes_over_another_address() {
    let mut entry = GenesisAccount::empty();
    fold_change(&mut entry, &modify(other(), 5, Some(vec![1]), vec![(word(1), word(1))]), &target());
    assert_eq!(entry, GenesisAccount::empty());
    fold_change(&mut entry, &modify(target(), 5, Some(vec![1]), vec![(word(1), word(1))]), &target());
    assert_eq!(
        entry,
        GenesisAccount { code: "0x01".to_string(), storage: table(&[(1, 1)]), balance: word(5), nonce: word(1) }
    );
}

#[test]
fn collect_is_deterministic() {
    let changes = vec![
        modify(other(), 99, Some(vec![1, 2]), vec![(word(1), word(9))]),
        modify(target(), 7, Some(vec![0xfe]), vec![(word(9), word(2)), (word(1), word(2))]),
    ];
    assert_eq!(collect(&changes, &target()), collect(&changes.clone(), &target()));
}
