use genesis_gen::engine::{conclude, Engine, ExecutionOutcome, FailureReason, MAX_NESTING};
use genesis_gen::precompile::Registry;
use genesis_gen::primitives::{Address, Word};
use genesis_gen::state::{Account, AccountChange, Environment, WorldState};
use genesis_gen::storage::StorageTable;

fn unhex(text: &str) -> Vec<u8> {
    hex::decode(text).unwrap()
}

fn word(n: u64) -> Word {
    Word::from_u64(n)
}

fn target() -> Address {
    Address { hi: 0, lo: 0x1000 }
}

fn bystander() -> Address {
    Address { hi: 0, lo: 0xbeef }
}

fn fresh_store() -> WorldState {
    WorldState::new(Environment::for_chain(word(100)))
}

const RUNTIME: &str = "600160005500";
const SIMPLE: &str = "602a6000556006601160003960066000f3600160005500";
const MERGE: &str = "6011600155602260025560336001556006601b60003960066000f3600160005500";
const TOUCH: &str =
    "6000600060006000600061beef5af150602a6000556006602160003960066000f3600160005500";
const PAY: &str =
    "6000600060006000600361beef5af150602a6000556006602160003960066000f3600160005500";
const SHA256_CALL: &str =
    "6020600060006000600060025af1506000516000556006602160003960066000f3600160005500";

fn run(store: WorldState, registry: &Registry, code: &str, value: u64, gas: u64) -> (ExecutionOutcome, WorldState) {
    let mut engine = Engine::new(registry, store);
    let outcome = engine.execute_creation(Address::zero(), target(), word(value), unhex(code), gas);
    (outcome, engine.into_store())
}

fn changes_of(outcome: &ExecutionOutcome) -> Vec<AccountChange> {
    match outcome {
        ExecutionOutcome::Succeeded { changes } => changes.clone(),
        ExecutionOutcome::Failed { reason } => panic!("failed: {:?}", reason),
    }
}

fn change_at(changes: &[AccountChange], address: Address) -> Option<AccountChange> {
    changes
        .iter()
        .find(|c| match c {
            AccountChange::Modify { address: a, .. } => *a == address,
            AccountChange::Delete { address: a } => *a == address,
        })
        .cloned()
}

#[test]
fn creation_installs_the_returned_code_and_the_storage_writes() {
    let registry = Registry::standard();
    let (outcome, store) = run(fresh_store(), &registry, SIMPLE, 0, u64::MAX);
    let changes = changes_of(&outcome);
    assert_eq!(
        change_at(&changes, target()),
        Some(AccountChange::Modify {
            address: target(),
            balance: word(0),
            nonce: word(1),
            code: Some(unhex(RUNTIME)),
            storage: vec![(word(0), word(42))],
            reset_storage: true,
        })
    );
    let account = store.get_account(&target());
    assert_eq!(account.code, unhex(RUNTIME));
    assert_eq!(account.nonce, word(1));
    assert_eq!(account.balance, word(0));
    assert_eq!(account.storage.get(&word(0)), Some(word(42)));
    assert_eq!(account.storage.len(), 1);
}

#[test]
fn creation_counts_the_sender_nonce() {
    let registry = Registry::standard();
    let (outcome, store) = run(fresh_store(), &registry, SIMPLE, 0, u64::MAX);
    let changes = changes_of(&outcome);
    assert_eq!(
        change_at(&changes, Address::zero()),
        Some(AccountChange::Modify {
            address: Address::zero(),
            balance: word(0),
            nonce: word(1),
            code: None,
            storage: vec![],
            reset_storage: false,
        })
    );
    assert_eq!(store.get_account(&Address::zero()).nonce, word(1));
}

#[test]
fn later_write_to_a_key_wins() {
    let registry = Registry::standard();
    let (outcome, store) = run(fresh_store(), &registry, MERGE, 0, u64::MAX);
    let changes = changes_of(&outcome);
    match change_at(&changes, target()) {
        Some(AccountChange::Modify { storage, .. }) => {
            assert_eq!(storage, vec![(word(1), word(0x33)), (word(2), word(0x22))]);
        }
        other => panic!("unexpected change {:?}", other),
    }
    let account = store.get_account(&target());
    assert_eq!(
        account.storage.entries(),
        &vec![(word(1), word(0x33)), (word(2), word(0x22))]
    );
}

#[test]
fn revert_fails_and_leaves_the_state_alone() {
    let registry = Registry::standard();
    let (outcome, store) = run(fresh_store(), &registry, "60006000fd", 0, u64::MAX);
    assert_eq!(outcome, ExecutionOutcome::Failed { reason: FailureReason::Reverted });
    assert_eq!(store.entries().len(), 0);
    assert_eq!(store.get_account(&Address::zero()), Account::empty());
    assert_eq!(store.get_account(&target()), Account::empty());
}

#[test]
fn faults_are_classified() {
    let registry = Registry::standard();
    let cases = [
        // The virtual machine prices an opcode that does not exist at all the gas.
        ("fe", u64::MAX, FailureReason::OutOfGas),
        ("0c", u64::MAX, FailureReason::OutOfGas),
        ("01", u64::MAX, FailureReason::StackUnderflow),
        ("60ff56", u64::MAX, FailureReason::InvalidJump),
        ("5b600056", 100_000, FailureReason::OutOfGas),
    ];
    for (code, gas, reason) in cases {
        let (outcome, store) = run(fresh_store(), &registry, code, 0, gas);
        assert_eq!(outcome, ExecutionOutcome::Failed { reason });
        assert_eq!(store.entries().len(), 0);
    }
}

#[test]
fn value_above_the_sender_balance_is_out_of_fund() {
    let registry = Registry::standard();
    let (outcome, store) = run(fresh_store(), &registry, SIMPLE, 1, u64::MAX);
    assert_eq!(outcome, ExecutionOutcome::Failed { reason: FailureReason::OutOfFund });
    assert_eq!(store.entries().len(), 0);
}

#[test]
fn creation_at_an_address_with_code_collides() {
    let registry = Registry::standard();
    let mut store = fresh_store();
    let mut occupied = Account::empty();
    occupied.code = vec![0];
    store.set_account(target(), occupied.clone());
    let (outcome, store) = run(store, &registry, SIMPLE, 0, u64::MAX);
    assert_eq!(outcome, ExecutionOutcome::Failed { reason: FailureReason::CreateCollision });
    assert_eq!(store.get_account(&target()), occupied);
    assert_eq!(store.get_account(&Address::zero()), Account::empty());
    assert_eq!(store.entries().len(), 1);
}

#[test]
fn failure_keeps_a_state_that_was_not_empty() {
    let registry = Registry::standard();
    let mut store = fresh_store();
    let mut rich = Account::empty();
    rich.balance = word(100);
    rich.nonce = word(7);
    store.set_account(Address::zero(), rich.clone());
    let before = store.snapshot();
    let (outcome, store) = run(store, &registry, "60006000fd", 5, u64::MAX);
    assert_eq!(outcome, ExecutionOutcome::Failed { reason: FailureReason::Reverted });
    assert_eq!(store.entries(), before.entries());
    assert_eq!(store.get_account(&Address::zero()), rich);
}

#[test]
fn a_call_without_value_touches_the_bystander() {
    let registry = Registry::standard();
    let (outcome, store) = run(fresh_store(), &registry, TOUCH, 0, u64::MAX);
    let changes = changes_of(&outcome);
    assert_eq!(
        change_at(&changes, bystander()),
        Some(AccountChange::Modify {
            address: bystander(),
            balance: word(0),
            nonce: word(0),
            code: None,
            storage: vec![],
            reset_storage: false,
        })
    );
    assert_eq!(store.get_account(&bystander()), Account::empty());
    assert_eq!(store.get_account(&target()).storage.get(&word(0)), Some(word(42)));
}

#[test]
fn value_moves_from_the_sender_through_the_contract_to_the_bystander() {
    let registry = Registry::standard();
    let mut store = fresh_store();
    let mut rich = Account::empty();
    rich.balance = word(100);
    store.set_account(Address::zero(), rich);
    let (outcome, store) = run(store, &registry, PAY, 10, u64::MAX);
    let changes = changes_of(&outcome);
    assert_eq!(changes.len(), 3);
    assert_eq!(store.get_account(&Address::zero()).balance, word(90));
    assert_eq!(store.get_account(&target()).balance, word(7));
    assert_eq!(store.get_account(&bystander()).balance, word(3));
    match change_at(&changes, bystander()) {
        Some(AccountChange::Modify { balance, .. }) => assert_eq!(balance, word(3)),
        other => panic!("unexpected change {:?}", other),
    }
}

#[test]
fn a_call_to_a_reserved_address_runs_the_precompile() {
    let registry = Registry::standard();
    let (_, store) = run(fresh_store(), &registry, SHA256_CALL, 0, u64::MAX);
    assert_eq!(
        store.get_account(&target()).storage.get(&word(0)),
        Some(Word {
            hi: 0xe3b0c44298fc1c149afbf4c8996fb924,
            lo: 0x27ae41e4649b934ca495991b7852b855,
        })
    );
}

#[test]
fn a_call_to_a_reserved_address_finds_no_code_without_the_registry() {
    let registry = Registry::empty();
    let (outcome, store) = run(fresh_store(), &registry, SHA256_CALL, 0, u64::MAX);
    let changes = changes_of(&outcome);
    assert!(change_at(&changes, target()).is_some());
    assert_eq!(store.get_account(&target()).storage.get(&word(0)), Some(word(0)));
    assert_eq!(store.get_account(&target()).code, unhex(RUNTIME));
}

#[test]
fn the_chain_id_of_the_environment_is_what_the_code_sees() {
    // CHAINID, PUSH1 0, SSTORE, then return no code.
    let registry = Registry::standard();
    let store = WorldState::new(Environment::for_chain(word(14000)));
    let (_, store) = run(store, &registry, "4660005560006000f3", 0, u64::MAX);
    assert_eq!(store.get_account(&target()).storage.get(&word(0)), Some(word(14000)));
}

#[test]
fn execution_is_deterministic() {
    let registry = Registry::standard();
    for code in [SIMPLE, MERGE, TOUCH, SHA256_CALL, "60006000fd", "fe"] {
        let (first, first_store) = run(fresh_store(), &registry, code, 0, u64::MAX);
        let (second, second_store) = run(fresh_store(), &registry, code, 0, u64::MAX);
        assert_eq!(first, second);
        assert_eq!(first_store.entries(), second_store.entries());
    }
}

#[test]
fn conclude_drops_what_a_failure_gathered() {
    let change = AccountChange::Delete { address: target() };
    assert_eq!(
        conclude(None, vec![change.clone()]),
        ExecutionOutcome::Succeeded { changes: vec![change.clone()] }
    );
    assert_eq!(
        conclude(Some(FailureReason::OutOfGas), vec![change]),
        ExecutionOutcome::Failed { reason: FailureReason::OutOfGas }
    );
}

#[test]
fn settle_applies_on_success_only() {
    let registry = Registry::standard();
    let change = AccountChange::Modify {
        address: target(),
        balance: word(5),
        nonce: word(1),
        code: Some(vec![1, 2, 3]),
        storage: vec![(word(9), word(8))],
        reset_storage: false,
    };
    let mut engine = Engine::new(&registry, fresh_store());
    let failed = engine.settle(Some(FailureReason::Fatal), vec![change.clone()]);
    assert_eq!(failed, ExecutionOutcome::Failed { reason: FailureReason::Fatal });
    assert_eq!(engine.store().entries().len(), 0);
    let done = engine.settle(None, vec![change.clone()]);
    assert_eq!(done, ExecutionOutcome::Succeeded { changes: vec![change] });
    let mut storage = StorageTable::new();
    storage.insert(word(9), word(8));
    assert_eq!(
        engine.store().get_account(&target()),
        Account { balance: word(5), nonce: word(1), code: vec![1, 2, 3], storage }
    );
}

/// Code that copies itself into memory and creates a contract from it, so that
/// every creation nests the next one until the engine refuses to go deeper.
const SELF_CREATING: &str = "3860006000393860006000f000";

fn nest(engine: &mut Engine) -> usize {
    let outcome =
        engine.execute_creation(Address::zero(), target(), word(0), unhex(SELF_CREATING), u64::MAX);
    changes_of(&outcome).len()
}

#[test]
fn nesting_stops_at_the_bound() {
    let registry = Registry::standard();
    assert_eq!(MAX_NESTING, 128);
    // The sender, the target, and one created account for each level.
    assert_eq!(nest(&mut Engine::new(&registry, fresh_store())), MAX_NESTING + 3);
    assert_eq!(nest(&mut Engine::with_nesting(&registry, fresh_store(), 5)), 8);
    assert_eq!(nest(&mut Engine::with_nesting(&registry, fresh_store(), 0)), 3);
}

#[test]
fn nesting_above_the_bound_is_brought_down_to_it() {
    let registry = Registry::standard();
    assert_eq!(nest(&mut Engine::with_nesting(&registry, fresh_store(), 1024)), MAX_NESTING + 3);
    assert_eq!(
        nest(&mut Engine::with_nesting(&registry, fresh_store(), usize::MAX)),
        MAX_NESTING + 3
    );
}

#[test]
fn a_nonce_without_room_keeps_the_code_from_running() {
    let registry = Registry::standard();
    let mut store = fresh_store();
    let mut worn = Account::empty();
    worn.nonce = Word::max_value();
    store.set_account(Address::zero(), worn.clone());
    let (outcome, store) = run(store, &registry, SIMPLE, 0, u64::MAX);
    assert_eq!(outcome, ExecutionOutcome::Failed { reason: FailureReason::NonceOverflow });
    assert_eq!(store.get_account(&Address::zero()), worn);
    assert_eq!(store.entries().len(), 1);
    // The worn account need not be the sender.
    let mut store = fresh_store();
    worn.nonce = Word { hi: u128::MAX, lo: 0 };
    store.set_account(bystander(), worn);
    assert!(!store.nonces_have_room());
    let (outcome, _) = run(store, &registry, SIMPLE, 0, u64::MAX);
    assert_eq!(outcome, ExecutionOutcome::Failed { reason: FailureReason::NonceOverflow });
}

#[test]
fn a_high_nonce_with_room_is_counted_on() {
    let registry = Registry::standard();
    let mut store = fresh_store();
    let mut busy = Account::empty();
    busy.nonce = Word { hi: u128::MAX - 1, lo: u128::MAX };
    store.set_account(Address::zero(), busy);
    assert!(store.nonces_have_room());
    let (outcome, store) = run(store, &registry, SIMPLE, 0, u64::MAX);
    assert!(matches!(outcome, ExecutionOutcome::Succeeded { .. }));
    assert_eq!(store.get_account(&Address::zero()).nonce, Word { hi: u128::MAX, lo: 0 });
    assert!(!store.nonces_have_room());
}

#[test]
fn a_replaced_account_does_not_count_for_the_nonces() {
    let mut store = fresh_store();
    let mut worn = Account::empty();
    worn.nonce = Word::max_value();
    store.set_account(bystander(), worn);
    assert!(!store.nonces_have_room());
    store.set_account(bystander(), Account::empty());
    assert!(store.nonces_have_room());
    assert!(fresh_store().nonces_have_room());
}
