//! The fixed-width types of the virtual machine, and the conversions between them
//! and this crate's `Address` and `Word`. Verus sees nothing inside a value of
//! these types: they are made here, handed to the virtual machine, and turned back.

use crate::primitives::{Address, Word};
use ethereum_types::{H160, H256, U256};
use vstd::prelude::*;

verus! {

/// `ethereum_types::H160`, a 160-bit hash. Values are carried, never looked
/// into.
#[verifier::external_type_specification]
#[verifier::external_body]
pub struct ExH160(H160);

/// `ethereum_types::H256`, a 256-bit hash. Values are carried, never looked
/// into.
#[verifier::external_type_specification]
#[verifier::external_body]
pub struct ExH256(H256);

/// `ethereum_types::U256`, a 256-bit unsigned integer. Values are carried,
/// never looked into.
#[verifier::external_type_specification]
#[verifier::external_body]
pub struct ExU256(U256);

/// Builds the `H160` whose twenty big-endian bytes are those of the address.
/// Nothing is claimed of the result.
#[verifier::external_body]
pub(crate) fn to_h160(a: &Address) -> H160 {
    let mut bytes = [0u8; 20];
    bytes[..4].copy_from_slice(&a.hi.to_be_bytes());
    bytes[4..].copy_from_slice(&a.lo.to_be_bytes());
    H160(bytes)
}

/// The address that an `H160` holds: the number of its twenty big-endian bytes.
pub uninterp spec fn h160_address(h: H160) -> Address;

/// Reads the twenty big-endian bytes of an `H160` into an address: the high
/// four into `hi`, the low sixteen into `lo`. The result is the address that the
/// `H160` holds.
#[verifier::external_body]
pub(crate) fn from_h160(h: &H160) -> (a: Address)
    ensures
        a == h160_address(*h),
{
    let mut hi = [0u8; 4];
    let mut lo = [0u8; 16];
    hi.copy_from_slice(&h.0[..4]);
    lo.copy_from_slice(&h.0[4..]);
    Address { hi: u32::from_be_bytes(hi), lo: u128::from_be_bytes(lo) }
}

/// Builds the `H256` whose thirty-two big-endian bytes are those of the word.
/// Nothing is claimed of the result.
#[verifier::external_body]
pub(crate) fn to_h256(w: &Word) -> H256 {
    let mut bytes = [0u8; 32];
    bytes[..16].copy_from_slice(&w.hi.to_be_bytes());
    bytes[16..].copy_from_slice(&w.lo.to_be_bytes());
    H256(bytes)
}

/// Reads the thirty-two big-endian bytes of an `H256` into a word.
/// Nothing is claimed of the result.
#[verifier::external_body]
pub(crate) fn from_h256(h: &H256) -> Word {
    let mut hi = [0u8; 16];
    let mut lo = [0u8; 16];
    hi.copy_from_slice(&h.0[..16]);
    lo.copy_from_slice(&h.0[16..]);
    Word { hi: u128::from_be_bytes(hi), lo: u128::from_be_bytes(lo) }
}

/// Builds the `U256` with the number of the word, through `H256` and
/// `U256::from_big_endian`. Nothing is claimed of the result.
#[verifier::external_body]
pub(crate) fn to_u256(w: &Word) -> U256 {
    U256::from_big_endian(&to_h256(w).0)
}

/// Reads the number of a `U256` into a word, through `U256::to_big_endian` and
/// `H256`. Nothing is claimed of the result.
#[verifier::external_body]
pub(crate) fn from_u256(u: &U256) -> Word {
    let mut bytes = [0u8; 32];
    u.to_big_endian(&mut bytes);
    from_h256(&H256(bytes))
}

} // verus!
