//! Genesis synthesis for an account-based ledger.
//!
//! Each system contract is deployed inside an isolated virtual machine against an
//! in-memory world state; the resulting account (code, storage, balance, nonce) is
//! folded into the genesis allocation table.
//!
//! - [`precompile`]: the registry of native cryptographic functions at reserved
//!   addresses.
//! - [`state`] and [`storage`]: accounts, account changes and the world state.
//! - [`engine`]: the execution of one creation transaction.
//! - [`collector`]: the fold of an execution's changes into one genesis entry.
//! - [`genesis`]: the genesis document and the run that fills it.
//! - [`asset`], [`abi`] and [`abitext`]: the contract assets, the encoding of
//!   constructor calls, and the scan that keeps untamed text from the decoder.
//! - [`primitives`], [`bridge`], [`hexcode`] and [`assoc`]: addresses and words,
//!   their counterparts in the virtual machine, hexadecimal text, and sequences
//!   of pairs read as maps.

pub mod abi;
pub mod abitext;
pub mod asset;
pub mod assoc;
pub mod bridge;
pub mod collector;
pub mod engine;
pub mod genesis;
pub mod hexcode;
pub mod precompile;
pub mod primitives;
pub mod state;
pub mod storage;

pub use primitives::{Address, Word};
