//! The execution engine: one creation transaction, run by the virtual machine
//! against the world state with the precompile registry at hand.

use crate::bridge::{from_h160, from_h256, from_u256, to_h160, to_h256, to_u256};
use crate::precompile::{Precompile, Registry};
use crate::primitives::{Address, Word};
use crate::state::{apply_changes, change_views, nonces_have_room, Account, AccountChange, AccountView, ChangeView, Environment, WorldState};
use ethereum_types::{H160, H256};
use evm::backend::{Apply, MemoryAccount, MemoryBackend, MemoryVicinity};
use evm::executor::stack::{MemoryStackState, StackExecutor, StackSubstateMetadata};
use evm::{Capture, Config, CreateScheme, ExitError, ExitReason, Handler};
use std::collections::BTreeMap;
use vstd::prelude::*;

verus! {

/// Why an execution failed.
#[derive(Clone, Copy, Debug, PartialEq, Eq, Structural)]
pub enum FailureReason {
    /// The code ran the revert opcode.
    Reverted,
    /// A pop from an empty stack.
    StackUnderflow,
    /// A push onto a full stack.
    StackOverflow,
    /// A jump to a place that is no jump destination.
    InvalidJump,
    /// A memory access outside the valid range.
    InvalidRange,
    /// The designated invalid opcode was evaluated. The virtual machine prices an
    /// opcode that it does not know at all the gas before it evaluates it, so such
    /// an opcode mostly ends in `OutOfGas`.
    InvalidOpcode,
    /// The call stack grew too deep.
    CallTooDeep,
    /// The target address already has code or a nonce.
    CreateCollision,
    /// The code to install is longer than the limit.
    CreateContractLimit,
    /// The code to install starts with a byte that is not allowed there.
    InvalidCode,
    /// An offset beyond the limit.
    OutOfOffset,
    /// The gas ran out.
    OutOfGas,
    /// The sender cannot pay the value.
    OutOfFund,
    /// Some account of the world state has a nonce within 2^128 of the largest
    /// word, so that counting on could leave 256 bits. The code does not run.
    NonceOverflow,
    /// Another error of the virtual machine.
    Other,
    /// A fault that the virtual machine does not count among its normal errors.
    Fatal,
}

/// The outcome of an execution, as a mathematical value.
pub enum OutcomeView {
    Succeeded { changes: Seq<ChangeView> },
    Failed { reason: FailureReason },
}

/// The outcome of an execution: success with the changes it made, in order, or
/// failure with its reason and no change at all.
#[derive(Clone, Debug, PartialEq, Eq)]
pub enum ExecutionOutcome {
    Succeeded { changes: Vec<AccountChange> },
    Failed { reason: FailureReason },
}

impl View for ExecutionOutcome {
    type V = OutcomeView;

    open spec fn view(&self) -> OutcomeView {
        match self {
            ExecutionOutcome::Succeeded { changes } => OutcomeView::Succeeded {
                changes: change_views(changes@),
            },
            ExecutionOutcome::Failed { reason } => OutcomeView::Failed { reason: *reason },
        }
    }
}

/// The deepest nesting of calls and creations that an engine lets code reach; a
/// call or creation that would nest deeper fails as too deep. The ledger's rules
/// allow 1024 levels. The virtual machine runs every level on the native stack
/// of the caller's thread and takes several kilobytes for each, so that depth
/// does not fit the stack of an ordinary thread; 128 levels stay near one
/// megabyte. Deployment code of a system contract does not come near this bound.
pub const MAX_NESTING: usize = 128;

/// What the virtual machine hands back for one creation: how it exited (`None`
/// for success) and the account changes that it had gathered by then.
pub uninterp spec fn creation_result(
    state: Map<Address, AccountView>,
    env: Environment,
    registry: Map<Address, Precompile>,
    sender: Address,
    target: Address,
    value: Word,
    init_code: Seq<u8>,
    gas_limit: u64,
    nesting: usize,
) -> (Option<FailureReason>, Seq<ChangeView>);

/// The outcome that a raw result stands for: on success the gathered changes, on
/// failure the reason alone. What a failed execution had gathered is dropped, so
/// that a failure leaves nothing to apply.
pub open spec fn concluded(exit: Option<FailureReason>, changes: Seq<ChangeView>) -> OutcomeView {
    match exit {
        None => OutcomeView::Succeeded { changes },
        Some(reason) => OutcomeView::Failed { reason },
    }
}

/// The outcome of one creation.
pub open spec fn creation_outcome(
    state: Map<Address, AccountView>,
    env: Environment,
    registry: Map<Address, Precompile>,
    sender: Address,
    target: Address,
    value: Word,
    init_code: Seq<u8>,
    gas_limit: u64,
    nesting: usize,
) -> OutcomeView {
    let raw = creation_result(
        state,
        env,
        registry,
        sender,
        target,
        value,
        init_code,
        gas_limit,
        nesting,
    );
    concluded(raw.0, raw.1)
}

/// The outcome of one creation on an engine: where a nonce of the world state
/// leaves no room to be counted on, the code does not run and the creation
/// fails; else the outcome is that of the virtual machine.
pub open spec fn engine_outcome(
    state: Map<Address, AccountView>,
    env: Environment,
    registry: Map<Address, Precompile>,
    sender: Address,
    target: Address,
    value: Word,
    init_code: Seq<u8>,
    gas_limit: u64,
    nesting: usize,
) -> OutcomeView {
    if !nonces_have_room(state) {
        OutcomeView::Failed { reason: FailureReason::NonceOverflow }
    } else {
        creation_outcome(
            state,
            env,
            registry,
            sender,
            target,
            value,
            init_code,
            gas_limit,
            nesting,
        )
    }
}

/// The world state after an outcome: the changes applied on success, the state
/// as it was on failure.
pub open spec fn state_after(state: Map<Address, AccountView>, outcome: OutcomeView) -> Map<
    Address,
    AccountView,
> {
    match outcome {
        OutcomeView::Succeeded { changes } => apply_changes(state, changes),
        OutcomeView::Failed { .. } => state,
    }
}

/// `evm::backend::MemoryVicinity`, the environment of the virtual machine's
/// memory backend. Values are carried, never looked into.
#[verifier::external_type_specification]
#[verifier::external_body]
pub struct ExMemoryVicinity(MemoryVicinity);

/// `evm::backend::MemoryAccount`, an account of the virtual machine's memory
/// backend. Values are carried, never looked into.
#[verifier::external_type_specification]
#[verifier::external_body]
pub struct ExMemoryAccount(MemoryAccount);

/// `evm::ExitError`, the normal errors of the virtual machine. Values are
/// carried, never looked into.
#[verifier::external_type_specification]
#[verifier::external_body]
pub struct ExExitError(ExitError);

/// `evm::ExitReason`, how an execution ended. Values are carried, never looked
/// into.
#[verifier::external_type_specification]
#[verifier::external_body]
pub struct ExExitReason(ExitReason);

/// `evm::backend::Apply`, one change that the virtual machine hands back.
/// Values are carried, never looked into.
#[verifier::external_type_specification]
#[verifier::external_body]
#[verifier::reject_recursive_types(I)]
pub struct ExApply<I>(Apply<I>);

/// Builds the virtual machine's `MemoryVicinity` from an environment, field by
/// field, with no earlier block hashes. Nothing is claimed of the result.
#[verifier::external_body]
fn vicinity_of(env: &Environment) -> MemoryVicinity {
    MemoryVicinity {
        gas_price: to_u256(&env.gas_price),
        origin: to_h160(&env.origin),
        chain_id: to_u256(&env.chain_id),
        block_hashes: Vec::new(),
        block_number: to_u256(&env.block_number),
        block_coinbase: to_h160(&env.block_coinbase),
        block_timestamp: to_u256(&env.block_timestamp),
        block_difficulty: to_u256(&env.block_difficulty),
        block_gas_limit: to_u256(&env.block_gas_limit),
        block_base_fee_per_gas: to_u256(&env.block_base_fee_per_gas),
    }
}

/// Builds the virtual machine's `MemoryAccount` from an account, field by field.
/// Nothing is claimed of the result.
#[verifier::external_body]
fn memory_account(account: &Account) -> MemoryAccount {
    MemoryAccount {
        nonce: to_u256(&account.nonce),
        balance: to_u256(&account.balance),
        storage: account.storage.entries().iter().map(|(k, v)| (to_h256(k), to_h256(v))).collect(),
        code: account.code.clone(),
    }
}

/// Builds the account table of the virtual machine's `MemoryBackend` from the
/// entries of a world state. The entries go in from the last to the first, so
/// that of two with one address the earlier one stays, as in the state's view.
/// Nothing is claimed of the result.
#[verifier::external_body]
fn memory_accounts(store: &WorldState) -> BTreeMap<H160, MemoryAccount> {
    let mut accounts = BTreeMap::new();
    for (address, account) in store.entries().iter().rev() {
        accounts.insert(to_h160(address), memory_account(account));
    }
    accounts
}

/// Tells the variants of the virtual machine's `ExitError` apart.
#[verifier::external_body]
fn failure_of(error: &ExitError) -> FailureReason {
    match error {
        ExitError::StackUnderflow => FailureReason::StackUnderflow,
        ExitError::StackOverflow => FailureReason::StackOverflow,
        ExitError::InvalidJump => FailureReason::InvalidJump,
        ExitError::InvalidRange => FailureReason::InvalidRange,
        ExitError::DesignatedInvalid => FailureReason::InvalidOpcode,
        ExitError::CallTooDeep => FailureReason::CallTooDeep,
        ExitError::CreateCollision => FailureReason::CreateCollision,
        ExitError::CreateContractLimit => FailureReason::CreateContractLimit,
        ExitError::InvalidCode => FailureReason::InvalidCode,
        ExitError::OutOfOffset => FailureReason::OutOfOffset,
        ExitError::OutOfGas => FailureReason::OutOfGas,
        ExitError::OutOfFund => FailureReason::OutOfFund,
        _ => FailureReason::Other,
    }
}

/// Tells the variants of the virtual machine's `ExitReason` apart: `None` for
/// success, else the reason of the failure.
#[verifier::external_body]
fn exit_of(reason: &ExitReason) -> Option<FailureReason> {
    match reason {
        ExitReason::Succeed(_) => None,
        ExitReason::Error(error) => Some(failure_of(error)),
        ExitReason::Revert(_) => Some(FailureReason::Reverted),
        ExitReason::Fatal(_) => Some(FailureReason::Fatal),
    }
}

/// Turns one `Apply` of the virtual machine into an account change, field by
/// field, the storage writes in the order in which they are handed over.
/// Nothing is claimed of the result.
#[verifier::external_body]
fn change_of<I: IntoIterator<Item = (H256, H256)>>(apply: Apply<I>) -> AccountChange {
    match apply {
        Apply::Modify { address, basic, code, storage, reset_storage } => AccountChange::Modify {
            address: from_h160(&address),
            balance: from_u256(&basic.balance),
            nonce: from_u256(&basic.nonce),
            code,
            storage: storage.into_iter().map(|(k, v)| (from_h256(&k), from_h256(&v))).collect(),
            reset_storage,
        },
        Apply::Delete { address } => AccountChange::Delete { address: from_h160(&address) },
    }
}

/// Runs one creation on the virtual machine: a `StackExecutor` under the Istanbul
/// rules, over a `MemoryBackend` that holds the accounts and the environment of
/// `store`, with `registry` as its precompile set, is asked to create at the
/// fixed address `target`; then its state is taken apart into the changes it
/// gathered. The virtual machine reads no clock, no random source and nothing
/// outside its arguments, and it walks its tables in key order, so the result is
/// a function of the arguments: that is all the contract claims. The machine
/// recurses natively once for each level of nesting, so the depth that it is
/// allowed is kept to `MAX_NESTING`; and it adds one to a nonce without a check,
/// so a state whose nonces leave no room is kept from it.
#[verifier::external_body]
fn run_create(
    store: &WorldState,
    registry: &Registry,
    sender: &Address,
    target: &Address,
    value: &Word,
    init_code: Vec<u8>,
    gas_limit: u64,
    nesting: usize,
) -> (r: (Option<FailureReason>, Vec<AccountChange>))
    requires
        nesting <= MAX_NESTING,
        nonces_have_room(store@),
    ensures
        (r.0, change_views(r.1@)) == creation_result(
            store@,
            store.environment(),
            registry@,
            *sender,
            *target,
            *value,
            init_code@,
            gas_limit,
            nesting,
        ),
{
    let vicinity = vicinity_of(store.env());
    let backend = MemoryBackend::new(&vicinity, memory_accounts(store));
    let config = Config { call_stack_limit: nesting, ..Config::istanbul() };
    let state = MemoryStackState::new(StackSubstateMetadata::new(gas_limit, &config), &backend);
    let mut executor = StackExecutor::new_with_precompiles(state, &config, registry);
    let scheme = CreateScheme::Fixed(to_h160(target));
    let Capture::Exit((reason, _, _)) = executor.create(to_h160(sender), scheme, to_u256(value), init_code, Some(gas_limit));
    let (changes, _) = executor.into_state().deconstruct();
    (exit_of(&reason), changes.into_iter().map(change_of).collect())
}

/// A depth of nesting, brought down to `MAX_NESTING` where it is above it.
pub open spec fn bounded_nesting(nesting: usize) -> usize {
    if nesting <= MAX_NESTING {
        nesting
    } else {
        MAX_NESTING
    }
}

/// The outcome that a raw result of the virtual machine stands for.
pub fn conclude(exit: Option<FailureReason>, changes: Vec<AccountChange>) -> (outcome:
    ExecutionOutcome)
    ensures
        outcome@ == concluded(exit, change_views(changes@)),
{
    match exit {
        None => ExecutionOutcome::Succeeded { changes },
        Some(reason) => ExecutionOutcome::Failed { reason },
    }
}

/// The execution engine. It owns the world state of one simulated deployment and
/// reads the precompile registry that it was made with.
pub struct Engine<'a> {
    registry: &'a Registry,
    store: WorldState,
    nesting: usize,
}

impl<'a> Engine<'a> {
    /// The world state that the engine holds, as a mathematical value.
    pub closed spec fn state(&self) -> Map<Address, AccountView> {
        self.store@
    }

    /// The environment of the engine's world state.
    pub closed spec fn environment(&self) -> Environment {
        self.store.environment()
    }

    /// The registry that the engine reads, as a mathematical value.
    pub closed spec fn precompiles(&self) -> Map<Address, Precompile> {
        self.registry@
    }

    /// The deepest nesting of calls and creations that the engine lets code reach.
    pub closed spec fn nesting(&self) -> usize {
        self.nesting
    }

    /// An engine over `store` that resolves precompiles through `registry` and
    /// lets code nest as deep as `MAX_NESTING`.
    pub fn new(registry: &'a Registry, store: WorldState) -> (e: Engine<'a>)
        ensures
            e.state() == store@,
            e.environment() == store.environment(),
            e.precompiles() == registry@,
            e.nesting() == MAX_NESTING,
    {
        Engine { registry, store, nesting: MAX_NESTING }
    }

    /// An engine that lets code nest as deep as `nesting`, or as deep as
    /// `MAX_NESTING` where `nesting` is above it.
    pub fn with_nesting(registry: &'a Registry, store: WorldState, nesting: usize) -> (e: Engine<'a>)
        ensures
            e.state() == store@,
            e.environment() == store.environment(),
            e.precompiles() == registry@,
            e.nesting() == bounded_nesting(nesting),
    {
        let nesting = if nesting <= MAX_NESTING {
            nesting
        } else {
            MAX_NESTING
        };
        Engine { registry, store, nesting }
    }

    /// The world state.
    pub fn store(&self) -> (s: &WorldState)
        ensures
            s@ == self.state(),
            s.environment() == self.environment(),
    {
        &self.store
    }

    /// Gives the world state back and ends the engine.
    pub fn into_store(self) -> (s: WorldState)
        ensures
            s@ == self.state(),
            s.environment() == self.environment(),
    {
        self.store
    }

    /// Settles a raw result of the virtual machine: on success the changes are
    /// applied to the world state and reported; on failure the world state stays
    /// as it is, whatever the virtual machine had gathered.
    pub fn settle(&mut self, exit: Option<FailureReason>, changes: Vec<AccountChange>) -> (outcome:
        ExecutionOutcome)
        ensures
            outcome@ == concluded(exit, change_views(changes@)),
            final(self).state() == state_after(old(self).state(), outcome@),
            outcome@ is Failed ==> final(self).state() == old(self).state(),
            final(self).environment() == old(self).environment(),
            final(self).precompiles() == old(self).precompiles(),
            final(self).nesting() == old(self).nesting(),
    {
        match exit {
            None => {
                self.store.apply(&changes);
                ExecutionOutcome::Succeeded { changes }
            },
            Some(reason) => ExecutionOutcome::Failed { reason },
        }
    }

    /// Executes one creation transaction: `init_code` runs as the constructor of
    /// a new account at `target`, sent by `sender` with `value`, with at most
    /// `gas_limit` gas. A call to an address that the registry holds runs the
    /// precompile there. Code may nest calls and creations as deep as the engine's
    /// bound, and runs only where every nonce of the world state leaves room to
    /// be counted on. On success the outcome lists every account change and the
    /// world state has them applied; on failure the world state is as it was
    /// before the call.
    pub fn execute_creation(
        &mut self,
        sender: Address,
        target: Address,
        value: Word,
        init_code: Vec<u8>,
        gas_limit: u64,
    ) -> (outcome: ExecutionOutcome)
        ensures
            outcome@ == engine_outcome(
                old(self).state(),
                old(self).environment(),
                old(self).precompiles(),
                sender,
                target,
                value,
                init_code@,
                gas_limit,
                bounded_nesting(old(self).nesting()),
            ),
            final(self).state() == state_after(old(self).state(), outcome@),
            outcome@ is Failed ==> final(self).state() == old(self).state(),
            final(self).environment() == old(self).environment(),
            final(self).precompiles() == old(self).precompiles(),
            final(self).nesting() == old(self).nesting(),
    {
        if !self.store.nonces_have_room() {
            return ExecutionOutcome::Failed { reason: FailureReason::NonceOverflow };
        }
        let nesting = if self.nesting <= MAX_NESTING {
            self.nesting
        } else {
            MAX_NESTING
        };
        let (exit, changes) = run_create(
            &self.store,
            self.registry,
            &sender,
            &target,
            &value,
            init_code,
            gas_limit,
            nesting,
        );
        self.settle(exit, changes)
    }
}

} // verus!
