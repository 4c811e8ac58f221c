//! The genesis document and the orchestrator that fills it: each system contract
//! is deployed in a fresh world state and its account entry is written into the
//! allocation table.

use crate::abi::{constructor_call, encode_constructor_call, value_views, AbiValue, AbiValueView, Contract};
use crate::asset::{artifact_in, contract_in, ArtifactData, ArtifactView, Asset, AssetError};
use crate::assoc::{absent_before, as_map, first_index, lemma_first_index_is, lemma_first_index_none, lemma_lookup_push, lemma_lookup_update, lookup};
use crate::collector::{collect, collected, deletes, EntryView, GenesisAccount};
use crate::engine::{creation_outcome, Engine, ExecutionOutcome, FailureReason, OutcomeView, MAX_NESTING};
use crate::hexcode::{decode_prefixed, prefixed_bytes};
use crate::precompile::{standard_precompiles, Registry};
use crate::primitives::{Address, Word};
use crate::state::{empty_state, Environment, WorldState};
use vstd::prelude::*;

verus! {

/// The address of the staking contract.
pub fn staking_address() -> (a: Address)
    ensures
        a == (Address { hi: 0, lo: 0x1000 }),
{
    Address { hi: 0, lo: 0x1000 }
}

/// The address of the slashing indicator contract.
pub fn slashing_indicator_address() -> (a: Address)
    ensures
        a == (Address { hi: 0, lo: 0x1001 }),
{
    Address { hi: 0, lo: 0x1001 }
}

/// The address of the system reward contract.
pub fn system_reward_address() -> (a: Address)
    ensures
        a == (Address { hi: 0, lo: 0x1002 }),
{
    Address { hi: 0, lo: 0x1002 }
}

/// The address of the staking pool contract.
pub fn staking_pool_address() -> (a: Address)
    ensures
        a == (Address { hi: 0, lo: 0x7001 }),
{
    Address { hi: 0, lo: 0x7001 }
}

/// The address of the governance contract.
pub fn governance_address() -> (a: Address)
    ensures
        a == (Address { hi: 0, lo: 0x7002 }),
{
    Address { hi: 0, lo: 0x7002 }
}

/// The address of the chain config contract.
pub fn chain_config_address() -> (a: Address)
    ensures
        a == (Address { hi: 0, lo: 0x7003 }),
{
    Address { hi: 0, lo: 0x7003 }
}

/// The address of the runtime upgrade contract.
pub fn runtime_upgrade_address() -> (a: Address)
    ensures
        a == (Address { hi: 0, lo: 0x7004 }),
{
    Address { hi: 0, lo: 0x7004 }
}

/// The address of the deployer proxy contract.
pub fn deployer_proxy_address() -> (a: Address)
    ensures
        a == (Address { hi: 0, lo: 0x7005 }),
{
    Address { hi: 0, lo: 0x7005 }
}

/// The intermediary system address, the second highest address there is.
pub fn intermediary_system_address() -> (a: Address)
    ensures
        a == (Address { hi: 0xffff_ffff, lo: 0xffff_ffff_ffff_ffff_ffff_ffff_ffff_fffe }),
{
    Address { hi: 0xffff_ffff, lo: 0xffff_ffff_ffff_ffff_ffff_ffff_ffff_fffe }
}

/// The settings of the Parlia consensus engine.
#[derive(Clone, Copy, Debug, PartialEq, Eq)]
pub struct ParliaConfig {
    pub period: u64,
    pub epoch: u64,
}

/// The chain configuration block of a genesis document. The fork markers are
/// carried as they are given; nothing here reads them.
#[derive(Clone, Copy, Debug, PartialEq, Eq)]
pub struct ChainConfig {
    pub chain_id: Word,
    pub homestead_block: Option<Word>,
    pub eip150_block: Option<Word>,
    pub eip150_hash: Option<Word>,
    pub eip155_block: Option<Word>,
    pub eip158_block: Option<Word>,
    pub byzantium_block: Option<Word>,
    pub constantinople_block: Option<Word>,
    pub petersburg_block: Option<Word>,
    pub istanbul_block: Option<Word>,
    pub muir_glacier_block: Option<Word>,
    pub berlin_block: Option<Word>,
    pub runtime_upgrade_block: Option<Word>,
    pub deployer_proxy_block: Option<Word>,
    pub yolo_v3_block: Option<Word>,
    pub ewasm_block: Option<Word>,
    pub catalyst_block: Option<Word>,
    pub ramanujan_block: Option<Word>,
    pub niels_block: Option<Word>,
    pub mirror_sync_block: Option<Word>,
    pub bruno_block: Option<Word>,
    pub parlia: Option<ParliaConfig>,
}

/// The chain configuration of the chain `chain_id` with no fork marker set and
/// the given consensus settings.
pub open spec fn plain_chain_config(chain_id: Word, parlia: Option<ParliaConfig>) -> ChainConfig {
    ChainConfig {
        chain_id,
        homestead_block: None,
        eip150_block: None,
        eip150_hash: None,
        eip155_block: None,
        eip158_block: None,
        byzantium_block: None,
        constantinople_block: None,
        petersburg_block: None,
        istanbul_block: None,
        muir_glacier_block: None,
        berlin_block: None,
        runtime_upgrade_block: None,
        deployer_proxy_block: None,
        yolo_v3_block: None,
        ewasm_block: None,
        catalyst_block: None,
        ramanujan_block: None,
        niels_block: None,
        mirror_sync_block: None,
        bruno_block: None,
        parlia,
    }
}

/// The allocation table of a genesis document: the account entry of each address
/// that has one.
#[derive(Clone, Debug)]
pub struct Allocation {
    entries: Vec<(Address, GenesisAccount)>,
}

/// The entries of a sequence, each as a mathematical value.
pub open spec fn allocation_pairs(entries: Seq<(Address, GenesisAccount)>) -> Seq<
    (Address, EntryView),
> {
    entries.map_values(|e: (Address, GenesisAccount)| (e.0, e.1@))
}

/// Whether no address is listed twice and every listed storage table is in
/// ascending key order.
pub open spec fn entries_wf(entries: Seq<(Address, GenesisAccount)>) -> bool {
    &&& forall|i: int| 0 <= i < entries.len() ==> (#[trigger] entries[i]).1.storage.wf()
    &&& forall|i: int, j: int|
        0 <= i < j < entries.len() ==> (#[trigger] entries[i]).0 != (#[trigger] entries[j]).0
}

/// A listing after the entry of an address was written: in the place of the entry
/// that the address had, or at the end where it had none.
pub open spec fn listing_after(listing: Seq<(Address, EntryView)>, address: Address, entry: EntryView) -> Seq<
    (Address, EntryView),
> {
    if first_index(listing, address) >= 0 {
        listing.update(first_index(listing, address), (address, entry))
    } else {
        listing.push((address, entry))
    }
}

impl View for Allocation {
    type V = Map<Address, EntryView>;

    closed spec fn view(&self) -> Map<Address, EntryView> {
        as_map(allocation_pairs(self.entries@))
    }
}

impl Allocation {
    /// Whether the table is well-formed: no address is listed twice, and every
    /// listed storage table is in ascending key order. `new` gives such a table
    /// and `insert` keeps it so.
    pub closed spec fn wf(&self) -> bool {
        entries_wf(self.entries@)
    }

    /// The table without entries: it binds no address and lists nothing.
    pub fn new() -> (t: Allocation)
        ensures
            t@ == Map::<Address, EntryView>::empty(),
            t.listed() == Seq::<(Address, EntryView)>::empty(),
            t.wf(),
    {
        let t = Allocation { entries: Vec::new() };
        proof {
            assert forall|a: Address| !(#[trigger] t@.dom().contains(a)) by {
                lemma_first_index_none(allocation_pairs(t.entries@), a);
            }
            assert(t@ =~= Map::<Address, EntryView>::empty());
            assert(t.listed() =~= Seq::<(Address, EntryView)>::empty());
        }
        t
    }

    /// The position of the entry of `address`, if it has one.
    fn position(&self, address: &Address) -> (r: Option<usize>)
        ensures
            match r {
                Some(i) => i < self.entries@.len() && self.entries@[i as int].0 == *address
                    && absent_before(allocation_pairs(self.entries@), *address, i as int)
                    && self@.dom().contains(*address) && self@[*address]
                    == self.entries@[i as int].1@,
                None => absent_before(
                    allocation_pairs(self.entries@),
                    *address,
                    self.entries@.len() as int,
                ) && !self@.dom().contains(*address),
            },
    {
        let ghost pairs = allocation_pairs(self.entries@);
        let mut i: usize = 0;
        while i < self.entries.len()
            invariant
                i <= self.entries.len(),
                pairs == allocation_pairs(self.entries@),
                absent_before(pairs, *address, i as int),
            decreases self.entries.len() - i,
        {
            if self.entries[i].0 == *address {
                proof {
                    lemma_first_index_is(pairs, *address, i as int);
                }
                return Some(i);
            }
            assert(pairs[i as int].0 != *address);
            i += 1;
        }
        proof {
            lemma_first_index_none(pairs, *address);
        }
        None
    }

    /// The entry of `address`, if it has one.
    pub fn get(&self, address: &Address) -> (r: Option<&GenesisAccount>)
        ensures
            match r {
                Some(e) => self@.dom().contains(*address) && self@[*address] == e@ && (self.wf()
                    ==> e.storage.wf()),
                None => !self@.dom().contains(*address),
            },
    {
        match self.position(address) {
            Some(i) => Some(&self.entries[i].1),
            None => None,
        }
    }

    /// Writes the entry of `address`: in the place of the one it had, or at the end
    /// of the listing where it had none.
    pub fn insert(&mut self, address: Address, account: GenesisAccount)
        ensures
            final(self)@ == old(self)@.insert(address, account@),
            final(self).listed() == listing_after(old(self).listed(), address, account@),
            final(self).listed().len() == old(self).listed().len() + (if old(self)@.dom().contains(
                address,
            ) {
                0int
            } else {
                1int
            }),
            old(self).wf() && account.storage.wf() ==> final(self).wf(),
    {
        let ghost before = allocation_pairs(self.entries@);
        let ghost entries_before = self.entries@;
        let ghost value = account@;
        match self.position(&address) {
            Some(i) => {
                self.entries.set(i, (address, account));
                proof {
                    let after = allocation_pairs(self.entries@);
                    lemma_first_index_is(before, address, i as int);
                    assert(after =~= before.update(i as int, (before[i as int].0, value)));
                    assert(entries_wf(entries_before) && account.storage.wf() ==> entries_wf(
                        self.entries@,
                    )) by {
                        if entries_wf(entries_before) && account.storage.wf() {
                            assert forall|j: int| 0 <= j < self.entries@.len() implies (
                            #[trigger] self.entries@[j]).1.storage.wf() by {
                                if j != i {
                                    assert(self.entries@[j] == entries_before[j]);
                                }
                            }
                            assert forall|j: int, k: int|
                                0 <= j < k < self.entries@.len() implies (
                            #[trigger] self.entries@[j]).0 != (#[trigger] self.entries@[k]).0 by {
                                assert(self.entries@[j].0 == entries_before[j].0);
                                assert(self.entries@[k].0 == entries_before[k].0);
                            }
                        }
                    }
                    assert forall|q: Address| #[trigger] lookup(after, q) == (if q == address {
                        Some(value)
                    } else {
                        lookup(before, q)
                    }) by {
                        lemma_lookup_update(before, i as int, value, q);
                    }
                }
            },
            None => {
                self.entries.push((address, account));
                proof {
                    let after = allocation_pairs(self.entries@);
                    assert(after =~= before.push((address, value)));
                    lemma_first_index_none(before, address);
                    assert(entries_wf(entries_before) && account.storage.wf() ==> entries_wf(
                        self.entries@,
                    )) by {
                        if entries_wf(entries_before) && account.storage.wf() {
                            assert forall|j: int| 0 <= j < self.entries@.len() implies (
                            #[trigger] self.entries@[j]).1.storage.wf() by {
                                if j < entries_before.len() {
                                    assert(self.entries@[j] == entries_before[j]);
                                }
                            }
                            assert forall|j: int, k: int|
                                0 <= j < k < self.entries@.len() implies (
                            #[trigger] self.entries@[j]).0 != (#[trigger] self.entries@[k]).0 by {
                                assert(self.entries@[j] == entries_before[j]);
                                assert(before[j].0 != address);
                                if k < entries_before.len() {
                                    assert(self.entries@[k] == entries_before[k]);
                                }
                            }
                        }
                    }
                    assert forall|q: Address| #[trigger] lookup(after, q) == (if q == address {
                        Some(value)
                    } else {
                        lookup(before, q)
                    }) by {
                        lemma_lookup_push(before, address, value, q);
                    }
                }
            },
        }
        assert(self@ =~= old(self)@.insert(address, value));
    }

    /// The number of entries that the table lists.
    pub fn len(&self) -> (n: usize)
        ensures
            n == self.listed().len(),
    {
        self.entries.len()
    }

    /// The entries as they are listed, in the order in which their addresses were
    /// first written.
    pub closed spec fn listed(&self) -> Seq<(Address, EntryView)> {
        allocation_pairs(self.entries@)
    }

    /// The entries, in the order in which their addresses were first written.
    pub fn entries(&self) -> (r: &Vec<(Address, GenesisAccount)>)
        ensures
            allocation_pairs(r@) == self.listed(),
            as_map(allocation_pairs(r@)) == self@,
            self.wf() ==> entries_wf(r@),
    {
        &self.entries
    }
}

/// A genesis document, as a mathematical value.
pub struct GenesisView {
    pub config: ChainConfig,
    pub nonce: u64,
    pub timestamp: u64,
    pub extra_data: Seq<u8>,
    pub gas_limit: u64,
    pub difficulty: Word,
    pub mix_hash: Word,
    pub coinbase: Address,
    pub alloc: Map<Address, EntryView>,
    pub number: u64,
    pub gas_used: u64,
    pub parent_hash: Word,
}

/// The genesis document: the chain configuration, the defaults of the first
/// block header, and the allocation table.
#[derive(Clone, Debug)]
pub struct Genesis {
    pub config: ChainConfig,
    pub nonce: u64,
    pub timestamp: u64,
    pub extra_data: Vec<u8>,
    pub gas_limit: u64,
    pub difficulty: Word,
    pub mix_hash: Word,
    pub coinbase: Address,
    pub alloc: Allocation,
    pub number: u64,
    pub gas_used: u64,
    pub parent_hash: Word,
}

impl View for Genesis {
    type V = GenesisView;

    open spec fn view(&self) -> GenesisView {
        GenesisView {
            config: self.config,
            nonce: self.nonce,
            timestamp: self.timestamp,
            extra_data: self.extra_data@,
            gas_limit: self.gas_limit,
            difficulty: self.difficulty,
            mix_hash: self.mix_hash,
            coinbase: self.coinbase,
            alloc: self.alloc@,
            number: self.number,
            gas_used: self.gas_used,
            parent_hash: self.parent_hash,
        }
    }
}

/// The genesis document of the chain `chain_id` with an epoch of `epoch` blocks
/// and the given allocation table; everything else as in the default document.
pub open spec fn genesis_with(chain_id: Word, epoch: u64, alloc: Map<Address, EntryView>) -> GenesisView {
    GenesisView {
        config: plain_chain_config(chain_id, Some(ParliaConfig { period: 3, epoch })),
        nonce: 0,
        timestamp: 0x5e9da7ce,
        extra_data: Seq::empty(),
        gas_limit: 0x2625a00,
        difficulty: Word { hi: 0, lo: 1 },
        mix_hash: Word { hi: 0, lo: 0 },
        coinbase: Address { hi: 0, lo: 0 },
        alloc,
        number: 0,
        gas_used: 0,
        parent_hash: Word { hi: 0, lo: 0 },
    }
}

impl Genesis {
    /// The default document: chain 100, a block period of 3 and an epoch of 0, no
    /// fork marker, the timestamp 0x5e9da7ce, the gas limit 0x2625a00, the
    /// difficulty 1, and nothing allocated.
    pub fn default() -> (g: Genesis)
        ensures
            g@ == genesis_with(Word { hi: 0, lo: 100 }, 0, Map::empty()),
            g.alloc.listed() == Seq::<(Address, EntryView)>::empty(),
            g.alloc.wf(),
    {
        Genesis {
            config: ChainConfig {
                chain_id: Word::from_u64(100),
                homestead_block: None,
                eip150_block: None,
                eip150_hash: None,
                eip155_block: None,
                eip158_block: None,
                byzantium_block: None,
                constantinople_block: None,
                petersburg_block: None,
                istanbul_block: None,
                muir_glacier_block: None,
                berlin_block: None,
                runtime_upgrade_block: None,
                deployer_proxy_block: None,
                yolo_v3_block: None,
                ewasm_block: None,
                catalyst_block: None,
                ramanujan_block: None,
                niels_block: None,
                mirror_sync_block: None,
                bruno_block: None,
                parlia: Some(ParliaConfig { period: 3, epoch: 0 }),
            },
            nonce: 0,
            timestamp: 0x5e9da7ce,
            extra_data: Vec::new(),
            gas_limit: 0x2625a00,
            difficulty: Word::from_u64(1),
            mix_hash: Word::zero(),
            coinbase: Address::zero(),
            alloc: Allocation::new(),
            number: 0,
            gas_used: 0,
            parent_hash: Word::zero(),
        }
    }
}

/// The consensus parameters of a network.
#[derive(Clone, Copy, Debug, PartialEq, Eq)]
pub struct ConsensusParams {
    pub active_validators_length: u32,
    pub epoch_block_interval: u64,
    pub misdemeanor_threshold: u32,
    pub felony_threshold: u32,
    pub validator_jail_epoch_length: u32,
    pub undelegate_period: u32,
    pub min_validator_stake_amount: Word,
    pub min_staking_amount: Word,
}

/// What a network is set up with: its chain id, its first validators and their
/// stakes, its consensus parameters, and the accounts that the faucet funds.
#[derive(Clone, Debug, PartialEq, Eq)]
pub struct GenesisConfig {
    pub chain_id: Word,
    pub deployers: Vec<Address>,
    pub validators: Vec<Address>,
    pub system_treasury: Option<Address>,
    pub consensus_params: ConsensusParams,
    pub voting_period: i64,
    pub faucet: Vec<(Address, String)>,
    pub commission_rate: i64,
    pub initial_stakes: Vec<(Address, Word)>,
}

/// The stake that all validators of the development network start with: a
/// thousand units of 10^18.
pub const DEV_NET_STAKE: u128 = 0x3635c9adc5dea00000;

/// The validators of the development network.
pub open spec fn dev_net_validators() -> Seq<Address> {
    seq![
        Address { hi: 0x08fae388, lo: 0x5e299c24ff9841478eb946f41023ac69 },
        Address { hi: 0x751aaca8, lo: 0x49b09a3e347bbfe125cf18423cc24b40 },
        Address { hi: 0xa6ff33e3, lo: 0x250cc765052ac9d7f7dfebda183c4b9b },
        Address { hi: 0x49c0f7c8, lo: 0xc11a4c80dc6449efe1010bb166818da8 },
        Address { hi: 0x8e1ea6ea, lo: 0xa09c3b40f4a51fcd056a031870a0549a },
    ]
}

/// The initial stakes of the development network: the same for every validator.
pub open spec fn dev_net_stakes() -> Seq<(Address, Word)> {
    seq![
        (Address { hi: 0x08fae388, lo: 0x5e299c24ff9841478eb946f41023ac69 }, Word { hi: 0, lo: DEV_NET_STAKE }),
        (Address { hi: 0x751aaca8, lo: 0x49b09a3e347bbfe125cf18423cc24b40 }, Word { hi: 0, lo: DEV_NET_STAKE }),
        (Address { hi: 0xa6ff33e3, lo: 0x250cc765052ac9d7f7dfebda183c4b9b }, Word { hi: 0, lo: DEV_NET_STAKE }),
        (Address { hi: 0x49c0f7c8, lo: 0xc11a4c80dc6449efe1010bb166818da8 }, Word { hi: 0, lo: DEV_NET_STAKE }),
        (Address { hi: 0x8e1ea6ea, lo: 0xa09c3b40f4a51fcd056a031870a0549a }, Word { hi: 0, lo: DEV_NET_STAKE }),
    ]
}

/// The settings of the development network.
pub fn dev_net() -> (cfg: GenesisConfig)
    ensures
        cfg.chain_id == (Word { hi: 0, lo: 14000 }),
        cfg.deployers@ == Seq::<Address>::empty(),
        cfg.validators@ == dev_net_validators(),
        cfg.system_treasury is None,
        cfg.consensus_params == (ConsensusParams {
            active_validators_length: 25,
            epoch_block_interval: 12000,
            misdemeanor_threshold: 50,
            felony_threshold: 150,
            validator_jail_epoch_length: 7,
            undelegate_period: 6,
            min_validator_stake_amount: Word { hi: 0, lo: 0xde0b6b3a7640000 },
            min_staking_amount: Word { hi: 0, lo: 0xde0b6b3a7640000 },
        }),
        cfg.voting_period == 60,
        cfg.faucet@.len() == 2,
        cfg.faucet@[0].0 == (Address { hi: 0x00a601f4, lo: 0x5688dba8a070722073b015277cf36725 }),
        cfg.faucet@[0].1@ == "0x21e19e0c9bab2400000"@,
        cfg.faucet@[1].0 == (Address { hi: 0xb891fe7b, lo: 0x38f857f53a7b5529204c58d5c487280b }),
        cfg.faucet@[1].1@ == "0x52b7d2dcc80cd2e4000000"@,
        cfg.commission_rate == 0,
        cfg.initial_stakes@ == dev_net_stakes(),
{
    let mut validators: Vec<Address> = Vec::new();
    validators.push(Address { hi: 0x08fae388, lo: 0x5e299c24ff9841478eb946f41023ac69 });
    validators.push(Address { hi: 0x751aaca8, lo: 0x49b09a3e347bbfe125cf18423cc24b40 });
    validators.push(Address { hi: 0xa6ff33e3, lo: 0x250cc765052ac9d7f7dfebda183c4b9b });
    validators.push(Address { hi: 0x49c0f7c8, lo: 0xc11a4c80dc6449efe1010bb166818da8 });
    validators.push(Address { hi: 0x8e1ea6ea, lo: 0xa09c3b40f4a51fcd056a031870a0549a });
    let mut faucet: Vec<(Address, String)> = Vec::new();
    faucet.push((Address { hi: 0x00a601f4, lo: 0x5688dba8a070722073b015277cf36725 }, String::from_str("0x21e19e0c9bab2400000")));
    faucet.push((Address { hi: 0xb891fe7b, lo: 0x38f857f53a7b5529204c58d5c487280b }, String::from_str("0x52b7d2dcc80cd2e4000000")));
    let stake = Word::from_u128(DEV_NET_STAKE);
    let mut initial_stakes: Vec<(Address, Word)> = Vec::new();
    initial_stakes.push((Address { hi: 0x08fae388, lo: 0x5e299c24ff9841478eb946f41023ac69 }, stake));
    initial_stakes.push((Address { hi: 0x751aaca8, lo: 0x49b09a3e347bbfe125cf18423cc24b40 }, stake));
    initial_stakes.push((Address { hi: 0xa6ff33e3, lo: 0x250cc765052ac9d7f7dfebda183c4b9b }, stake));
    initial_stakes.push((Address { hi: 0x49c0f7c8, lo: 0xc11a4c80dc6449efe1010bb166818da8 }, stake));
    initial_stakes.push((Address { hi: 0x8e1ea6ea, lo: 0xa09c3b40f4a51fcd056a031870a0549a }, stake));
    assert(validators@ =~= dev_net_validators());
    assert(initial_stakes@ =~= dev_net_stakes());
    GenesisConfig {
        chain_id: Word::from_u64(14000),
        deployers: Vec::new(),
        validators,
        system_treasury: None,
        consensus_params: ConsensusParams {
            active_validators_length: 25,
            epoch_block_interval: 12000,
            misdemeanor_threshold: 50,
            felony_threshold: 150,
            validator_jail_epoch_length: 7,
            undelegate_period: 6,
            min_validator_stake_amount: Word::from_u128(0xde0b6b3a7640000),
            min_staking_amount: Word::from_u128(0xde0b6b3a7640000),
        },
        voting_period: 60,
        faucet,
        commission_rate: 0,
        initial_stakes,
    }
}

/// The extra data of the first block header for a list of validators. It is
/// empty whatever the list holds.
pub fn create_extra_data(validators: Vec<Address>) -> (data: Vec<u8>)
    ensures
        data@ == Seq::<u8>::empty(),
{
    Vec::new()
}

/// Why a genesis document could not be made.
#[derive(Clone, Copy, Debug, PartialEq, Eq)]
pub enum GenesisError {
    /// A contract asset is missing or malformed.
    Asset(AssetError),
    /// The creation bytecode of an artifact is not two characters followed by
    /// hexadecimal digits.
    BadArtifact,
    /// The interface description has no function `ctor` or no constructor, or the
    /// arguments do not match their parameter types.
    Encoding,
    /// The commission rate is negative.
    NegativeCommissionRate,
    /// The deployment failed in the virtual machine.
    Execution(FailureReason),
}

/// What a deployment leaves behind, as a mathematical value: the entry of the
/// contract, and whether the contract was deleted in the course of its own
/// deployment, in which case the entry is that of an account that does not exist.
pub struct Deployed {
    pub entry: EntryView,
    pub deleted: bool,
}

/// What an outcome means for the contract at `target`: a failure is an error; a
/// success leaves the entry collected from its changes.
pub open spec fn outcome_entry(outcome: OutcomeView, target: Address) -> Result<
    Deployed,
    GenesisError,
> {
    match outcome {
        OutcomeView::Failed { reason } => Err(GenesisError::Execution(reason)),
        OutcomeView::Succeeded { changes } => Ok(
            Deployed { entry: collected(changes, target), deleted: deletes(changes, target) },
        ),
    }
}

/// The environment of a genesis deployment on the chain `chain_id`.
pub open spec fn genesis_environment(chain_id: Word) -> Environment {
    Environment {
        gas_price: Word { hi: 0, lo: 0 },
        origin: Address { hi: 0, lo: 0 },
        chain_id,
        block_number: Word { hi: 0, lo: 0 },
        block_coinbase: Address { hi: 0, lo: 0 },
        block_timestamp: Word { hi: 0, lo: 0 },
        block_difficulty: Word { hi: 0, lo: 0 },
        block_gas_limit: Word { hi: u128::MAX, lo: u128::MAX },
        block_base_fee_per_gas: Word { hi: 0, lo: 0 },
    }
}

/// What the deployment of a contract leaves at `target`: the creation code is the
/// artifact's bytecode followed by the encoded constructor call; it runs on the
/// chain `chain_id` in a world state in which every account is empty, sent by the
/// zero address with no value and the largest gas limit, with the standard
/// precompiles at hand.
pub open spec fn deployment(chain_id: Word, target: Address, byte_code: Seq<char>, constructor: Seq<u8>) -> Result<
    Deployed,
    GenesisError,
> {
    match prefixed_bytes(byte_code) {
        None => Err(GenesisError::BadArtifact),
        Some(code) => outcome_entry(
            creation_outcome(
                empty_state(),
                genesis_environment(chain_id),
                standard_precompiles(),
                Address { hi: 0, lo: 0 },
                target,
                Word { hi: 0, lo: 0 },
                code + constructor,
                u64::MAX,
                MAX_NESTING,
            ),
            target,
        ),
    }
}

/// The genesis document with one more entry in its allocation table.
pub open spec fn with_entry(g: GenesisView, target: Address, entry: EntryView) -> GenesisView {
    GenesisView {
        config: g.config,
        nonce: g.nonce,
        timestamp: g.timestamp,
        extra_data: g.extra_data,
        gas_limit: g.gas_limit,
        difficulty: g.difficulty,
        mix_hash: g.mix_hash,
        coinbase: g.coinbase,
        alloc: g.alloc.insert(target, entry),
        number: g.number,
        gas_used: g.gas_used,
        parent_hash: g.parent_hash,
    }
}

/// The genesis document after a deployment: with the entry of `target` written
/// where the deployment succeeded, as it was where it did not.
pub open spec fn recorded(g: GenesisView, target: Address, d: Result<Deployed, GenesisError>) -> GenesisView {
    match d {
        Ok(done) => with_entry(g, target, done.entry),
        Err(_) => g,
    }
}

/// The listing of the allocation table after a deployment: with the entry of
/// `target` written where the deployment succeeded, as it was where it did not.
pub open spec fn listed_after(
    listing: Seq<(Address, EntryView)>,
    target: Address,
    d: Result<Deployed, GenesisError>,
) -> Seq<(Address, EntryView)> {
    match d {
        Ok(done) => listing_after(listing, target, done.entry),
        Err(_) => listing,
    }
}

/// What the caller of a deployment is told: the error, or whether the contract
/// was deleted in the course of its deployment.
pub open spec fn reported(d: Result<Deployed, GenesisError>) -> Result<bool, GenesisError> {
    match d {
        Ok(done) => Ok(done.deleted),
        Err(e) => Err(e),
    }
}

/// Writes the outcome of a deployment into the genesis document: on success the
/// entry of `contract_address`, collected from the changes, goes into the
/// allocation table and no other address does, and the caller is told whether a
/// deletion of the contract was among the changes; on failure the document
/// stays as it is and the failure is the error.
pub fn record_outcome(genesis: &mut Genesis, contract_address: Address, outcome: ExecutionOutcome) -> (r:
    Result<bool, GenesisError>)
    ensures
        r == reported(outcome_entry(outcome@, contract_address)),
        final(genesis)@ == recorded(
            old(genesis)@,
            contract_address,
            outcome_entry(outcome@, contract_address),
        ),
        final(genesis).alloc.listed() == listed_after(
            old(genesis).alloc.listed(),
            contract_address,
            outcome_entry(outcome@, contract_address),
        ),
        old(genesis).alloc.wf() ==> final(genesis).alloc.wf(),
{
    match outcome {
        ExecutionOutcome::Failed { reason } => Err(GenesisError::Execution(reason)),
        ExecutionOutcome::Succeeded { changes } => {
            let found = collect(&changes, &contract_address);
            genesis.alloc.insert(contract_address, found.account);
            Ok(found.deleted)
        },
    }
}

/// Simulates the deployment of one system contract and writes its account entry
/// into the genesis document. The world state of the simulation is made empty
/// for this one deployment and dropped after it. The result says whether the
/// contract was deleted in the course of its deployment.
pub fn simulate_system_contract(
    genesis: &mut Genesis,
    contract_address: Address,
    artifact: ArtifactData,
    constructor: Vec<u8>,
) -> (r: Result<bool, GenesisError>)
    ensures
        r == reported(
            deployment(
                old(genesis).config.chain_id,
                contract_address,
                artifact.byte_code@,
                constructor@,
            ),
        ),
        final(genesis)@ == recorded(
            old(genesis)@,
            contract_address,
            deployment(
                old(genesis).config.chain_id,
                contract_address,
                artifact.byte_code@,
                constructor@,
            ),
        ),
        final(genesis).alloc.listed() == listed_after(
            old(genesis).alloc.listed(),
            contract_address,
            deployment(
                old(genesis).config.chain_id,
                contract_address,
                artifact.byte_code@,
                constructor@,
            ),
        ),
        old(genesis).alloc.wf() ==> final(genesis).alloc.wf(),
{
    let mut bytecode = match decode_prefixed(artifact.byte_code.as_str()) {
        Some(code) => code,
        None => {
            return Err(GenesisError::BadArtifact);
        },
    };
    let mut constructor = constructor;
    bytecode.append(&mut constructor);
    let registry = Registry::standard();
    let store = WorldState::new(Environment::for_chain(genesis.config.chain_id));
    let mut engine = Engine::new(&registry, store);
    let outcome = engine.execute_creation(
        Address::zero(),
        contract_address,
        Word::zero(),
        bytecode,
        u64::MAX,
    );
    record_outcome(genesis, contract_address, outcome)
}

/// Two deployments with the same chain id, target, bytecode and constructor call
/// leave the same entry, whatever else the two genesis documents hold: a
/// deployment sees nothing of the contracts that were deployed before it.
pub proof fn lemma_deployment_is_deterministic(
    first: GenesisView,
    second: GenesisView,
    target: Address,
    byte_code: Seq<char>,
    constructor: Seq<u8>,
)
    requires
        first.config.chain_id == second.config.chain_id,
    ensures
        reported(deployment(first.config.chain_id, target, byte_code, constructor)) == reported(
            deployment(second.config.chain_id, target, byte_code, constructor),
        ),
        deployment(first.config.chain_id, target, byte_code, constructor) is Ok ==> recorded(
            first,
            target,
            deployment(first.config.chain_id, target, byte_code, constructor),
        ).alloc[target] == recorded(
            second,
            target,
            deployment(second.config.chain_id, target, byte_code, constructor),
        ).alloc[target],
{
}

/// A deployment writes the entry of its target and of no other address: every
/// other address, a bystander that the constructor paid among them, has in the
/// allocation table what it had before.
pub proof fn lemma_only_the_target_is_recorded(
    g: GenesisView,
    target: Address,
    d: Result<Deployed, GenesisError>,
    bystander: Address,
)
    requires
        bystander != target,
    ensures
        recorded(g, target, d).alloc.dom().contains(bystander) == g.alloc.dom().contains(bystander),
        g.alloc.dom().contains(bystander) ==> recorded(g, target, d).alloc[bystander]
            == g.alloc[bystander],
{
}

/// A deployment that fails leaves the genesis document as it was.
pub proof fn lemma_failure_records_nothing(g: GenesisView, target: Address, d: Result<Deployed, GenesisError>)
    requires
        d is Err,
    ensures
        recorded(g, target, d) == g,
{
}

/// What the deployment of a contract with the given arguments leaves at `target`.
pub open spec fn constructed(
    chain_id: Word,
    target: Address,
    artifact: ArtifactView,
    abi: Seq<u8>,
    inputs: Seq<AbiValueView>,
) -> Result<Deployed, GenesisError> {
    match constructor_call(abi, inputs) {
        None => Err(GenesisError::Encoding),
        Some(data) => deployment(chain_id, target, artifact.byte_code, data),
    }
}

/// Encodes the constructor call of a system contract for the given arguments,
/// simulates its deployment, and writes its account entry into the genesis
/// document. The result says whether the contract was deleted in the course of
/// its deployment.
pub fn invoke_constructor(
    genesis: &mut Genesis,
    contract_address: Address,
    artifact: ArtifactData,
    contract: Contract,
    inputs: &[AbiValue],
) -> (r: Result<bool, GenesisError>)
    ensures
        r == reported(
            constructed(
                old(genesis).config.chain_id,
                contract_address,
                artifact@,
                contract@,
                value_views(inputs@),
            ),
        ),
        final(genesis)@ == recorded(
            old(genesis)@,
            contract_address,
            constructed(
                old(genesis).config.chain_id,
                contract_address,
                artifact@,
                contract@,
                value_views(inputs@),
            ),
        ),
        final(genesis).alloc.listed() == listed_after(
            old(genesis).alloc.listed(),
            contract_address,
            constructed(
                old(genesis).config.chain_id,
                contract_address,
                artifact@,
                contract@,
                value_views(inputs@),
            ),
        ),
        old(genesis).alloc.wf() ==> final(genesis).alloc.wf(),
{
    match encode_constructor_call(&contract, inputs) {
        None => Err(GenesisError::Encoding),
        Some(data) => simulate_system_contract(genesis, contract_address, artifact, data),
    }
}

/// The stakes of the validators that have one, in the order of the validators.
pub open spec fn stakes_of(validators: Seq<Address>, stakes: Seq<(Address, Word)>) -> Seq<Word>
    decreases validators.len(),
{
    if validators.len() == 0 {
        Seq::empty()
    } else {
        let rest = stakes_of(validators.drop_last(), stakes);
        match lookup(stakes, validators.last()) {
            Some(stake) => rest.push(stake),
            None => rest,
        }
    }
}

/// The stake that the table gives to `validator`, if any; of two entries with one
/// address the earlier one counts.
pub fn find_stake(stakes: &Vec<(Address, Word)>, validator: &Address) -> (r: Option<Word>)
    ensures
        r == lookup(stakes@, *validator),
{
    let mut i: usize = 0;
    while i < stakes.len()
        invariant
            i <= stakes.len(),
            absent_before(stakes@, *validator, i as int),
        decreases stakes.len() - i,
    {
        if stakes[i].0 == *validator {
            proof {
                lemma_first_index_is(stakes@, *validator, i as int);
            }
            return Some(stakes[i].1);
        }
        i += 1;
    }
    proof {
        lemma_first_index_none(stakes@, *validator);
    }
    None
}

/// The stakes of the validators that have one, in the order of the validators.
pub fn collect_stakes(validators: &Vec<Address>, stakes: &Vec<(Address, Word)>) -> (r: Vec<Word>)
    ensures
        r@ == stakes_of(validators@, stakes@),
{
    let mut found: Vec<Word> = Vec::new();
    let mut i: usize = 0;
    while i < validators.len()
        invariant
            i <= validators.len(),
            found@ == stakes_of(validators@.take(i as int), stakes@),
        decreases validators.len() - i,
    {
        assert(validators@.take(i + 1).drop_last() =~= validators@.take(i as int));
        match find_stake(stakes, &validators[i]) {
            Some(stake) => {
                found.push(stake);
            },
            None => {},
        }
        i += 1;
    }
    assert(validators@.take(validators.len() as int) =~= validators@);
    found
}

/// The arguments of the staking contract's constructor: the validators, their
/// stakes, and the commission rate.
pub open spec fn staking_inputs(validators: Seq<Address>, stakes: Seq<(Address, Word)>, commission_rate: i64) -> Seq<
    AbiValueView,
> {
    seq![
        AbiValueView::AddressArray(validators),
        AbiValueView::UintArray(stakes_of(validators, stakes)),
        AbiValueView::Uint(Word { hi: 0, lo: commission_rate as u128 }),
    ]
}

/// What the deployment of the staking contract leaves behind for a network's
/// settings and a bundle of assets. A negative commission rate is refused first, then a missing or
/// malformed asset, then arguments that cannot be encoded, then a deployment
/// that fails.
pub open spec fn staking_entry(
    chain_id: Word,
    validators: Seq<Address>,
    stakes: Seq<(Address, Word)>,
    commission_rate: i64,
    bundle: Map<Seq<char>, Seq<u8>>,
) -> Result<Deployed, GenesisError> {
    if commission_rate < 0 {
        Err(GenesisError::NegativeCommissionRate)
    } else {
        match artifact_in(bundle, "contracts/Staking.json"@) {
            Err(e) => Err(GenesisError::Asset(e)),
            Ok(artifact) => match contract_in(bundle, "abi/Staking.json"@) {
                Err(e) => Err(GenesisError::Asset(e)),
                Ok(abi) => constructed(
                    chain_id,
                    Address { hi: 0, lo: 0x1000 },
                    artifact,
                    abi,
                    staking_inputs(validators, stakes, commission_rate),
                ),
            },
        }
    }
}

/// A finished run: the genesis document, and whether the staking contract was
/// deleted in the course of its deployment, so that the caller can report it.
#[derive(Clone, Debug)]
pub struct GenesisRun {
    pub genesis: Genesis,
    pub staking_deleted: bool,
}

/// Makes the genesis document of a network: the default document with the
/// network's chain id and epoch length, and in its allocation table the entry of
/// the staking contract, deployed with the network's validators, their stakes
/// and the commission rate. Any failure ends the run without a document.
pub fn create_genesis_config(cfg: GenesisConfig, assets: &Asset) -> (r: Result<GenesisRun, GenesisError>)
    ensures
        match staking_entry(
            cfg.chain_id,
            cfg.validators@,
            cfg.initial_stakes@,
            cfg.commission_rate,
            assets@,
        ) {
            Err(e) => r is Err && r->Err_0 == e,
            Ok(done) => r is Ok && r->Ok_0.staking_deleted == done.deleted && r->Ok_0.genesis@
                == genesis_with(
                cfg.chain_id,
                cfg.consensus_params.epoch_block_interval,
                Map::<Address, EntryView>::empty().insert(Address { hi: 0, lo: 0x1000 }, done.entry),
            ) && r->Ok_0.genesis.alloc.listed() == seq![(Address { hi: 0, lo: 0x1000 }, done.entry)]
                && r->Ok_0.genesis.alloc.wf(),
        },
{
    let mut genesis = Genesis::default();
    genesis.config.chain_id = cfg.chain_id;
    genesis.extra_data = create_extra_data(cfg.validators.clone());
    genesis.config.parlia = Some(
        ParliaConfig { epoch: cfg.consensus_params.epoch_block_interval, period: 3 },
    );
    if cfg.commission_rate < 0 {
        return Err(GenesisError::NegativeCommissionRate);
    }
    let initial_stakes = collect_stakes(&cfg.validators, &cfg.initial_stakes);
    let ghost validators = cfg.validators@;
    let mut inputs: Vec<AbiValue> = Vec::new();
    inputs.push(AbiValue::AddressArray(cfg.validators));
    inputs.push(AbiValue::UintArray(initial_stakes));
    inputs.push(AbiValue::Uint(Word::from_u64(cfg.commission_rate as u64)));
    assert(value_views(inputs@) =~= staking_inputs(
        validators,
        cfg.initial_stakes@,
        cfg.commission_rate,
    ));
    let artifact = match assets.staking_artifact() {
        Ok(a) => a,
        Err(e) => {
            return Err(GenesisError::Asset(e));
        },
    };
    let contract = match assets.staking_contract() {
        Ok(c) => c,
        Err(e) => {
            return Err(GenesisError::Asset(e));
        },
    };
    match invoke_constructor(
        &mut genesis,
        staking_address(),
        artifact,
        contract,
        inputs.as_slice(),
    ) {
        Ok(staking_deleted) => Ok(GenesisRun { genesis, staking_deleted }),
        Err(e) => Err(e),
    }
}

} // verus!
