//! The precompile registry: the fixed table from reserved addresses to native
//! cryptographic functions, and the one entry point through which they run.

use crate::assoc::{absent_before, as_map, lemma_first_index_is, lemma_first_index_none, lemma_lookup_push, lookup};
use crate::bridge::{from_h160, h160_address};
use crate::primitives::Address;
use ethereum_types::{H160, U256};
use evm::executor::stack::{PrecompileFailure, PrecompileSet};
use evm::{Context, ExitError, ExitSucceed};
use ovr_evm_precompile_blake2::Blake2F;
use ovr_evm_precompile_bn128::{Bn128Add, Bn128Mul, Bn128Pairing};
use ovr_evm_precompile_curve25519::{Curve25519Add, Curve25519ScalarMul};
use ovr_evm_precompile_ed25519::Ed25519Verify;
use ovr_evm_precompile_modexp::Modexp;
use ovr_evm_precompile_sha3fips::Sha3FIPS256;
use ovr_evm_precompile_simple::{ECRecover, ECRecoverPublicKey, Identity, Ripemd160, Sha256};
use ovr_fp_evm::Precompile as NativePrecompile;
use vstd::prelude::*;

verus! {

/// The native functions that the registry can hold.
#[derive(Clone, Copy, Debug, PartialEq, Eq, Structural)]
pub enum Precompile {
    /// Recovery of the signer's address from an ECDSA signature on secp256k1.
    EcRecover,
    /// SHA-256.
    Sha256,
    /// RIPEMD-160, left-padded to 32 bytes.
    Ripemd160,
    /// The identity function.
    Identity,
    /// Modular exponentiation on big-endian numbers of caller-given lengths.
    Modexp,
    /// Recovery of the signer's public key from an ECDSA signature on secp256k1.
    EcRecoverPublicKey,
    /// SHA3-256 as standardised by FIPS 202.
    Sha3Fips256,
    /// The BLAKE2b compression function F.
    Blake2F,
    /// The pairing check on the curve alt_bn128.
    Bn128Pairing,
    /// Point addition on alt_bn128.
    Bn128Add,
    /// Scalar multiplication on alt_bn128.
    Bn128Mul,
    /// Addition of up to ten compressed Ristretto points.
    Curve25519Add,
    /// Scalar multiplication of a compressed Ristretto point.
    Curve25519ScalarMul,
    /// Verification of an Ed25519 signature.
    Ed25519Verify,
}

/// Why a precompile call failed.
#[derive(Clone, Copy, Debug, PartialEq, Eq, Structural)]
pub enum PrecompileError {
    /// The cost of the call is above the gas limit that the caller gave.
    OutOfGas,
    /// The input has the wrong length or does not encode what the function takes.
    InvalidInput,
}

/// What a successful precompile call returns, as a mathematical value.
pub struct OutputView {
    pub output: Seq<u8>,
    pub cost: u64,
}

/// What a successful precompile call returns.
#[derive(Clone, Debug, PartialEq, Eq)]
pub struct HandlerOutput {
    pub output: Vec<u8>,
    pub cost: u64,
}

impl View for HandlerOutput {
    type V = OutputView;

    open spec fn view(&self) -> OutputView {
        OutputView { output: self.output@, cost: self.cost }
    }
}

/// The result of a precompile call, as a mathematical value.
pub open spec fn result_view(r: Result<HandlerOutput, PrecompileError>) -> Result<
    OutputView,
    PrecompileError,
> {
    match r {
        Ok(o) => Ok(o@),
        Err(e) => Err(e),
    }
}

/// The reserved address of each precompile, as a number: 1 to 7, and a second
/// band from 1024 to 1030.
pub open spec fn reserved_index(p: Precompile) -> u64 {
    match p {
        Precompile::EcRecover => 1,
        Precompile::Sha256 => 2,
        Precompile::Ripemd160 => 3,
        Precompile::Identity => 4,
        Precompile::Modexp => 5,
        Precompile::EcRecoverPublicKey => 6,
        Precompile::Sha3Fips256 => 7,
        Precompile::Blake2F => 1024,
        Precompile::Bn128Pairing => 1025,
        Precompile::Bn128Add => 1026,
        Precompile::Bn128Mul => 1027,
        Precompile::Curve25519Add => 1028,
        Precompile::Curve25519ScalarMul => 1029,
        Precompile::Ed25519Verify => 1030,
    }
}

/// The precompile that is reserved at an address, if any.
pub open spec fn reserved_at(a: Address) -> Option<Precompile> {
    if a.hi != 0 {
        None
    } else if a.lo == 1 {
        Some(Precompile::EcRecover)
    } else if a.lo == 2 {
        Some(Precompile::Sha256)
    } else if a.lo == 3 {
        Some(Precompile::Ripemd160)
    } else if a.lo == 4 {
        Some(Precompile::Identity)
    } else if a.lo == 5 {
        Some(Precompile::Modexp)
    } else if a.lo == 6 {
        Some(Precompile::EcRecoverPublicKey)
    } else if a.lo == 7 {
        Some(Precompile::Sha3Fips256)
    } else if a.lo == 1024 {
        Some(Precompile::Blake2F)
    } else if a.lo == 1025 {
        Some(Precompile::Bn128Pairing)
    } else if a.lo == 1026 {
        Some(Precompile::Bn128Add)
    } else if a.lo == 1027 {
        Some(Precompile::Bn128Mul)
    } else if a.lo == 1028 {
        Some(Precompile::Curve25519Add)
    } else if a.lo == 1029 {
        Some(Precompile::Curve25519ScalarMul)
    } else if a.lo == 1030 {
        Some(Precompile::Ed25519Verify)
    } else {
        None
    }
}

/// The registry of this ledger as a map: each precompile at its reserved address.
pub open spec fn standard_precompiles() -> Map<Address, Precompile> {
    Map::new(|a: Address| reserved_at(a) is Some, |a: Address| reserved_at(a)->0)
}

/// The address whose number is `i`.
pub fn idx_to_h160(i: u64) -> (a: Address)
    ensures
        a@ == i,
        a == (Address { hi: 0, lo: i as u128 }),
{
    Address::from_low_u64(i)
}

/// A read-only table from addresses to precompiles. It is built once and then
/// handed to the interpreter by shared reference.
#[derive(Clone, Debug)]
pub struct Registry {
    entries: Vec<(Address, Precompile)>,
}

impl View for Registry {
    type V = Map<Address, Precompile>;

    closed spec fn view(&self) -> Map<Address, Precompile> {
        as_map(self.entries@)
    }
}

impl Registry {
    /// The registry that holds nothing.
    pub fn empty() -> (r: Registry)
        ensures
            r@ == Map::<Address, Precompile>::empty(),
    {
        let r = Registry { entries: Vec::new() };
        proof {
            assert forall|a: Address| !(#[trigger] r@.dom().contains(a)) by {
                lemma_first_index_none(r.entries@, a);
            }
            assert(r@ =~= Map::<Address, Precompile>::empty());
        }
        r
    }

    /// Puts `kind` at `address` unless the address is taken; says whether it did.
    pub fn register(&mut self, address: Address, kind: Precompile) -> (added: bool)
        ensures
            added == !old(self)@.dom().contains(address),
            final(self)@ == (if added {
                old(self)@.insert(address, kind)
            } else {
                old(self)@
            }),
    {
        if self.resolve(&address).is_some() {
            return false;
        }
        let ghost before = self.entries@;
        self.entries.push((address, kind));
        proof {
            assert forall|q: Address| #[trigger] lookup(self.entries@, q) == (if q == address {
                Some(kind)
            } else {
                lookup(before, q)
            }) by {
                lemma_lookup_push(before, address, kind, q);
            }
            assert(self@ =~= old(self)@.insert(address, kind));
        }
        true
    }

    /// The registry of this ledger: each of the fourteen precompiles at its
    /// reserved address, and nothing else.
    pub fn standard() -> (r: Registry)
        ensures
            r@ == standard_precompiles(),
            forall|p: Precompile|
                #![trigger reserved_index(p)]
                r@.dom().contains(Address { hi: 0, lo: reserved_index(p) as u128 }) && r@[Address {
                    hi: 0,
                    lo: reserved_index(p) as u128,
                }] == p,
    {
        let mut r = Registry::empty();
        r.register(idx_to_h160(1), Precompile::EcRecover);
        r.register(idx_to_h160(2), Precompile::Sha256);
        r.register(idx_to_h160(3), Precompile::Ripemd160);
        r.register(idx_to_h160(4), Precompile::Identity);
        r.register(idx_to_h160(5), Precompile::Modexp);
        r.register(idx_to_h160(6), Precompile::EcRecoverPublicKey);
        r.register(idx_to_h160(7), Precompile::Sha3Fips256);
        r.register(idx_to_h160(1024), Precompile::Blake2F);
        r.register(idx_to_h160(1025), Precompile::Bn128Pairing);
        r.register(idx_to_h160(1026), Precompile::Bn128Add);
        r.register(idx_to_h160(1027), Precompile::Bn128Mul);
        r.register(idx_to_h160(1028), Precompile::Curve25519Add);
        r.register(idx_to_h160(1029), Precompile::Curve25519ScalarMul);
        r.register(idx_to_h160(1030), Precompile::Ed25519Verify);
        assert(r@ =~= standard_precompiles());
        r
    }

    /// The precompile at `address`, if the registry holds one there.
    pub fn resolve(&self, address: &Address) -> (r: Option<Precompile>)
        ensures
            r == (if self@.dom().contains(*address) {
                Some(self@[*address])
            } else {
                None
            }),
    {
        let mut i: usize = 0;
        while i < self.entries.len()
            invariant
                i <= self.entries.len(),
                absent_before(self.entries@, *address, i as int),
            decreases self.entries.len() - i,
        {
            if self.entries[i].0 == *address {
                proof {
                    lemma_first_index_is(self.entries@, *address, i as int);
                }
                return Some(self.entries[i].1);
            }
            i += 1;
        }
        proof {
            lemma_first_index_none(self.entries@, *address);
        }
        None
    }
}


/// `evm::Context`, the addresses and the value that a call runs with. Values
/// are carried, never looked into.
#[verifier::external_type_specification]
#[verifier::external_body]
pub struct ExContext(Context);

/// `evm::executor::stack::PrecompileOutput`, what a native function returns on
/// success. Values are carried, never looked into.
#[verifier::external_type_specification]
#[verifier::external_body]
pub struct ExNativeOutput(evm::executor::stack::PrecompileOutput);

/// `evm::executor::stack::PrecompileFailure`, what a native function returns on
/// failure. Values are carried, never looked into.
#[verifier::external_type_specification]
#[verifier::external_body]
pub struct ExPrecompileFailure(PrecompileFailure);

/// What `ECRecover` returns for an input: the 32-byte padded address of the
/// signer, or nothing where no key can be recovered.
pub uninterp spec fn ecrecover_output(input: Seq<u8>) -> Seq<u8>;

/// The SHA-256 digest of an input.
pub uninterp spec fn sha256_digest(input: Seq<u8>) -> Seq<u8>;

/// The RIPEMD-160 digest of an input, left-padded to 32 bytes.
pub uninterp spec fn ripemd160_output(input: Seq<u8>) -> Seq<u8>;

/// What `Modexp` returns for an input of at least 96 bytes and a gas limit.
pub uninterp spec fn modexp_result(input: Seq<u8>, gas_limit: Option<u64>) -> Result<
    OutputView,
    PrecompileError,
>;

/// The public key that `ECRecoverPublicKey` recovers from an input, if any.
pub uninterp spec fn ecrecover_public_key(input: Seq<u8>) -> Option<Seq<u8>>;

/// The SHA3-256 digest of an input.
pub uninterp spec fn sha3_256_digest(input: Seq<u8>) -> Seq<u8>;

/// The state that `Blake2F` computes from an input of 213 bytes whose last byte
/// is 0 or 1.
pub uninterp spec fn blake2f_output(input: Seq<u8>) -> Seq<u8>;

/// The 32 bytes that `Bn128Pairing` computes from an input that is not empty, if
/// the input encodes points of the two groups.
pub uninterp spec fn bn128_pairing_output(input: Seq<u8>) -> Option<Seq<u8>>;

/// The sum that `Bn128Add` computes from an input, if the input encodes two points.
pub uninterp spec fn bn128_add_output(input: Seq<u8>) -> Option<Seq<u8>>;

/// The product that `Bn128Mul` computes from an input, if the input encodes a
/// point and a scalar.
pub uninterp spec fn bn128_mul_output(input: Seq<u8>) -> Option<Seq<u8>>;

/// The sum that `Curve25519Add` computes from an input of up to ten times 32
/// bytes.
pub uninterp spec fn curve25519_add_output(input: Seq<u8>) -> Seq<u8>;

/// The product that `Curve25519ScalarMul` computes from an input of 64 bytes.
pub uninterp spec fn curve25519_scalar_mul_output(input: Seq<u8>) -> Seq<u8>;

/// The four bytes that `Ed25519Verify` returns for an input of at least 128
/// bytes, if the input encodes a key and a signature.
pub uninterp spec fn ed25519_verify_output(input: Seq<u8>) -> Option<Seq<u8>>;

/// The cost of a call whose price is linear in the input's length: `base` plus
/// `word` for every started 32 bytes.
pub open spec fn linear_cost(base: u64, word: u64, len: nat) -> nat {
    base as nat + word as nat * ((len + 31) / 32)
}

/// The result of a call with a linear price: out of gas where the cost is above
/// the limit or does not fit 64 bits, else what the function itself returned.
pub open spec fn linear_result(
    base: u64,
    word: u64,
    input: Seq<u8>,
    gas_limit: Option<u64>,
    inner: Option<Seq<u8>>,
) -> Result<OutputView, PrecompileError> {
    let cost = linear_cost(base, word, input.len());
    if cost > u64::MAX || (gas_limit is Some && cost > gas_limit->0) {
        Err(PrecompileError::OutOfGas)
    } else {
        match inner {
            Some(output) => Ok(OutputView { output, cost: cost as u64 }),
            None => Err(PrecompileError::InvalidInput),
        }
    }
}

/// The result of a call with a fixed price that takes no account of the limit.
pub open spec fn fixed_result(cost: u64, inner: Option<Seq<u8>>) -> Result<
    OutputView,
    PrecompileError,
> {
    match inner {
        Some(output) => Ok(OutputView { output, cost }),
        None => Err(PrecompileError::InvalidInput),
    }
}

/// The number of rounds that an input of the compression function asks for: its
/// first four bytes as a big-endian number.
pub open spec fn blake2f_rounds(input: Seq<u8>) -> nat {
    (input[0] as nat) * 0x100_0000 + (input[1] as nat) * 0x1_0000 + (input[2] as nat) * 0x100
        + input[3] as nat
}

/// What `Blake2F` returns: an input that is not 213 bytes long is refused; then
/// the cost, one gas for each round, is held against the limit; then a last byte
/// other than 0 or 1 is refused; then the state is computed.
pub open spec fn blake2f_result(input: Seq<u8>, gas_limit: Option<u64>) -> Result<
    OutputView,
    PrecompileError,
> {
    if input.len() != 213 {
        Err(PrecompileError::InvalidInput)
    } else if gas_limit is Some && gas_limit->0 < blake2f_rounds(input) {
        Err(PrecompileError::OutOfGas)
    } else if input[212] > 1 {
        Err(PrecompileError::InvalidInput)
    } else {
        Ok(OutputView { output: blake2f_output(input), cost: blake2f_rounds(input) as u64 })
    }
}

/// The cost of a pairing check: 45000, and 34000 for every 192 bytes of input.
pub open spec fn pairing_cost(len: nat) -> nat {
    45000 + 34000 * (len / 192)
}

/// The number 1 as 32 big-endian bytes.
pub open spec fn one_word() -> Seq<u8> {
    Seq::new(32, |i: int| if i == 31 { 1u8 } else { 0u8 })
}

/// What `Bn128Pairing` returns for an input of at most `MAX_PAIRINGS` pairs: on
/// no input the number 1 for 45000 gas, without a look at the limit; else the
/// cost is held against the limit, and then the points are read and paired.
pub open spec fn bn128_pairing_result(input: Seq<u8>, gas_limit: Option<u64>) -> Result<
    OutputView,
    PrecompileError,
> {
    if input.len() == 0 {
        Ok(OutputView { output: one_word(), cost: 45000 })
    } else if gas_limit is Some && gas_limit->0 < pairing_cost(input.len()) {
        Err(PrecompileError::OutOfGas)
    } else {
        match bn128_pairing_output(input) {
            Some(output) => Ok(OutputView { output, cost: pairing_cost(input.len()) as u64 }),
            None => Err(PrecompileError::InvalidInput),
        }
    }
}

/// The most pairs that a pairing check can take before its cost, 45000 plus
/// 34000 for each pair, leaves 64 bits.
pub const MAX_PAIRINGS: u64 = 542_551_296_285_573;

/// The context that the native functions are called with. None of them reads it.
#[verifier::external_body]
fn blank_context() -> Context {
    Context { address: H160::zero(), caller: H160::zero(), apparent_value: U256::zero() }
}

/// What a result of the virtual machine's kind holds, read as this crate's
/// result: the output and the cost of a success; `OutOfGas` for the out-of-gas
/// error, `InvalidInput` for every other failure.
pub uninterp spec fn native_view(
    r: Result<evm::executor::stack::PrecompileOutput, PrecompileFailure>,
) -> Result<OutputView, PrecompileError>;

/// Turns what a native function returned into this crate's result: the output
/// and the cost on success; `OutOfGas` for the virtual machine's out-of-gas
/// error, `InvalidInput` for every other failure. This reading is what
/// `native_view` names.
#[verifier::external_body]
fn from_native(r: Result<evm::executor::stack::PrecompileOutput, PrecompileFailure>) -> (c: Result<
    HandlerOutput,
    PrecompileError,
>)
    ensures
        result_view(c) == native_view(r),
{
    match r {
        Ok(o) => Ok(HandlerOutput { output: o.output, cost: o.cost }),
        Err(PrecompileFailure::Error { exit_status: ExitError::OutOfGas }) => Err(
            PrecompileError::OutOfGas,
        ),
        Err(_) => Err(PrecompileError::InvalidInput),
    }
}

/// Turns this crate's result into the virtual machine's: a normal return with
/// the output, the cost and no log, or an error of the same kind. Read back as
/// `from_native` reads, the result is what was put in.
#[verifier::external_body]
fn to_native(r: Result<HandlerOutput, PrecompileError>) -> (n: Result<
    evm::executor::stack::PrecompileOutput,
    PrecompileFailure,
>)
    ensures
        native_view(n) == result_view(r),
{
    let exit_status = match r {
        Ok(o) => return Ok(evm::executor::stack::PrecompileOutput { exit_status: ExitSucceed::Returned, cost: o.cost, output: o.output, logs: Vec::new() }),
        Err(PrecompileError::OutOfGas) => ExitError::OutOfGas,
        Err(PrecompileError::InvalidInput) => ExitError::Other("invalid input".into()),
    };
    Err(PrecompileFailure::Error { exit_status })
}

/// `ECRecover::execute`: 3000 gas whatever the length; the call itself never
/// fails, it returns no bytes where no key can be recovered.
#[verifier::external_body]
fn run_ecrecover(input: &[u8], gas_limit: Option<u64>) -> (r: Result<
    HandlerOutput,
    PrecompileError,
>)
    ensures
        result_view(r) == linear_result(3000, 0, input@, gas_limit, Some(ecrecover_output(input@))),
{
    from_native(ECRecover::execute(input, gas_limit, &blank_context(), false))
}

/// `Sha256::execute`: 60 gas and 12 for every started 32 bytes; the call itself
/// never fails.
#[verifier::external_body]
fn run_sha256(input: &[u8], gas_limit: Option<u64>) -> (r: Result<HandlerOutput, PrecompileError>)
    ensures
        result_view(r) == linear_result(60, 12, input@, gas_limit, Some(sha256_digest(input@))),
{
    from_native(Sha256::execute(input, gas_limit, &blank_context(), false))
}

/// `Ripemd160::execute`: 600 gas and 120 for every started 32 bytes; the call
/// itself never fails.
#[verifier::external_body]
fn run_ripemd160(input: &[u8], gas_limit: Option<u64>) -> (r: Result<
    HandlerOutput,
    PrecompileError,
>)
    ensures
        result_view(r) == linear_result(600, 120, input@, gas_limit, Some(ripemd160_output(input@))),
{
    from_native(Ripemd160::execute(input, gas_limit, &blank_context(), false))
}

/// `Identity::execute`: 15 gas and 3 for every started 32 bytes; the output is
/// the input.
#[verifier::external_body]
fn run_identity(input: &[u8], gas_limit: Option<u64>) -> (r: Result<
    HandlerOutput,
    PrecompileError,
>)
    ensures
        result_view(r) == linear_result(15, 3, input@, gas_limit, Some(input@)),
{
    from_native(Identity::execute(input, gas_limit, &blank_context(), false))
}

/// `Modexp::execute`: an input of fewer than 96 bytes is refused before anything
/// else; the rest is what the function computes.
#[verifier::external_body]
fn run_modexp(input: &[u8], gas_limit: Option<u64>) -> (r: Result<HandlerOutput, PrecompileError>)
    ensures
        result_view(r) == (if input@.len() < 96 {
            Err(PrecompileError::InvalidInput)
        } else {
            modexp_result(input@, gas_limit)
        }),
{
    from_native(Modexp::execute(input, gas_limit, &blank_context(), false))
}

/// `ECRecoverPublicKey::execute`: 3000 gas whatever the length; it fails where
/// no key can be recovered.
#[verifier::external_body]
fn run_ecrecover_public_key(input: &[u8], gas_limit: Option<u64>) -> (r: Result<
    HandlerOutput,
    PrecompileError,
>)
    ensures
        result_view(r) == linear_result(3000, 0, input@, gas_limit, ecrecover_public_key(input@)),
{
    from_native(ECRecoverPublicKey::execute(input, gas_limit, &blank_context(), false))
}

/// `Sha3FIPS256::execute`: 60 gas and 12 for every started 32 bytes; the call
/// itself never fails.
#[verifier::external_body]
fn run_sha3_fips256(input: &[u8], gas_limit: Option<u64>) -> (r: Result<
    HandlerOutput,
    PrecompileError,
>)
    ensures
        result_view(r) == linear_result(60, 12, input@, gas_limit, Some(sha3_256_digest(input@))),
{
    from_native(Sha3FIPS256::execute(input, gas_limit, &blank_context(), false))
}

/// `Blake2F::execute`: an input that is not 213 bytes long is refused before
/// anything else; the cost is the number of rounds, and a limit below it is out
/// of gas; a last byte other than 0 or 1 is refused; the state is what the
/// function computes.
#[verifier::external_body]
fn run_blake2f(input: &[u8], gas_limit: Option<u64>) -> (r: Result<HandlerOutput, PrecompileError>)
    ensures
        result_view(r) == blake2f_result(input@, gas_limit),
        r is Ok ==> r->Ok_0.output@ == blake2f_output(input@),
{
    from_native(Blake2F::execute(input, gas_limit, &blank_context(), false))
}

/// `Bn128Pairing::execute`: no input gives the number 1 for 45000 gas; else the
/// cost, 45000 and 34000 for each pair, is held against the limit before the
/// points are read. The function adds up its cost in 64 bits without a check, so
/// an input of more pairs than `MAX_PAIRINGS` is kept from it.
#[verifier::external_body]
fn run_bn128_pairing(input: &[u8], gas_limit: Option<u64>) -> (r: Result<
    HandlerOutput,
    PrecompileError,
>)
    requires
        input@.len() / 192 <= MAX_PAIRINGS,
    ensures
        result_view(r) == bn128_pairing_result(input@, gas_limit),
        r is Ok && input@.len() > 0 ==> bn128_pairing_output(input@) == Some(r->Ok_0.output@),
{
    from_native(Bn128Pairing::execute(input, gas_limit, &blank_context(), false))
}

/// `Bn128Add::execute`: 150 gas; the function does not look at the limit.
#[verifier::external_body]
fn run_bn128_add(input: &[u8], gas_limit: Option<u64>) -> (r: Result<
    HandlerOutput,
    PrecompileError,
>)
    ensures
        result_view(r) == fixed_result(150, bn128_add_output(input@)),
{
    from_native(Bn128Add::execute(input, gas_limit, &blank_context(), false))
}

/// `Bn128Mul::execute`: 6000 gas; the function does not look at the limit.
#[verifier::external_body]
fn run_bn128_mul(input: &[u8], gas_limit: Option<u64>) -> (r: Result<
    HandlerOutput,
    PrecompileError,
>)
    ensures
        result_view(r) == fixed_result(6000, bn128_mul_output(input@)),
{
    from_native(Bn128Mul::execute(input, gas_limit, &blank_context(), false))
}

/// `Curve25519Add::execute`: 60 gas and 12 for every started 32 bytes; it fails
/// on a length that is no multiple of 32 or is above 320, and on no other
/// input.
#[verifier::external_body]
fn run_curve25519_add(input: &[u8], gas_limit: Option<u64>) -> (r: Result<
    HandlerOutput,
    PrecompileError,
>)
    ensures
        result_view(r) == linear_result(
            60,
            12,
            input@,
            gas_limit,
            if input@.len() % 32 != 0 || input@.len() > 320 {
                None
            } else {
                Some(curve25519_add_output(input@))
            },
        ),
{
    from_native(Curve25519Add::execute(input, gas_limit, &blank_context(), false))
}

/// `Curve25519ScalarMul::execute`: 60 gas and 12 for every started 32 bytes; it
/// fails on a length other than 64, and on no other input.
#[verifier::external_body]
fn run_curve25519_scalar_mul(input: &[u8], gas_limit: Option<u64>) -> (r: Result<
    HandlerOutput,
    PrecompileError,
>)
    ensures
        result_view(r) == linear_result(
            60,
            12,
            input@,
            gas_limit,
            if input@.len() != 64 {
                None
            } else {
                Some(curve25519_scalar_mul_output(input@))
            },
        ),
{
    from_native(Curve25519ScalarMul::execute(input, gas_limit, &blank_context(), false))
}

/// `Ed25519Verify::execute`: 15 gas and 3 for every started 32 bytes; it fails
/// on fewer than 128 bytes.
#[verifier::external_body]
fn run_ed25519_verify(input: &[u8], gas_limit: Option<u64>) -> (r: Result<
    HandlerOutput,
    PrecompileError,
>)
    ensures
        result_view(r) == linear_result(
            15,
            3,
            input@,
            gas_limit,
            if input@.len() < 128 {
                None
            } else {
                ed25519_verify_output(input@)
            },
        ),
{
    from_native(Ed25519Verify::execute(input, gas_limit, &blank_context(), false))
}

/// What the native function of `kind` returns for an input and a gas limit.
pub open spec fn native_result(kind: Precompile, input: Seq<u8>, gas_limit: Option<u64>) -> Result<
    OutputView,
    PrecompileError,
> {
    match kind {
        Precompile::EcRecover => linear_result(
            3000,
            0,
            input,
            gas_limit,
            Some(ecrecover_output(input)),
        ),
        Precompile::Sha256 => linear_result(60, 12, input, gas_limit, Some(sha256_digest(input))),
        Precompile::Ripemd160 => linear_result(
            600,
            120,
            input,
            gas_limit,
            Some(ripemd160_output(input)),
        ),
        Precompile::Identity => linear_result(15, 3, input, gas_limit, Some(input)),
        Precompile::Modexp => if input.len() < 96 {
            Err(PrecompileError::InvalidInput)
        } else {
            modexp_result(input, gas_limit)
        },
        Precompile::EcRecoverPublicKey => linear_result(
            3000,
            0,
            input,
            gas_limit,
            ecrecover_public_key(input),
        ),
        Precompile::Sha3Fips256 => linear_result(
            60,
            12,
            input,
            gas_limit,
            Some(sha3_256_digest(input)),
        ),
        Precompile::Blake2F => blake2f_result(input, gas_limit),
        Precompile::Bn128Pairing => if input.len() / 192 > MAX_PAIRINGS {
            Err(PrecompileError::OutOfGas)
        } else {
            bn128_pairing_result(input, gas_limit)
        },
        Precompile::Bn128Add => fixed_result(150, bn128_add_output(input)),
        Precompile::Bn128Mul => fixed_result(6000, bn128_mul_output(input)),
        Precompile::Curve25519Add => linear_result(
            60,
            12,
            input,
            gas_limit,
            if input.len() % 32 != 0 || input.len() > 320 {
                None
            } else {
                Some(curve25519_add_output(input))
            },
        ),
        Precompile::Curve25519ScalarMul => linear_result(
            60,
            12,
            input,
            gas_limit,
            if input.len() != 64 {
                None
            } else {
                Some(curve25519_scalar_mul_output(input))
            },
        ),
        Precompile::Ed25519Verify => linear_result(
            15,
            3,
            input,
            gas_limit,
            if input.len() < 128 {
                None
            } else {
                ed25519_verify_output(input)
            },
        ),
    }
}

/// A result after the caller was charged: a success whose cost is above the
/// limit becomes `OutOfGas`, so that no output comes with a cost that the caller
/// cannot pay.
pub open spec fn charged(r: Result<OutputView, PrecompileError>, gas_limit: Option<u64>) -> Result<
    OutputView,
    PrecompileError,
> {
    match r {
        Ok(o) => if gas_limit is Some && o.cost > gas_limit->0 {
            Err(PrecompileError::OutOfGas)
        } else {
            Ok(o)
        },
        Err(e) => Err(e),
    }
}

/// What a call of `kind` returns: the native result, charged against the limit.
pub open spec fn precompile_result(kind: Precompile, input: Seq<u8>, gas_limit: Option<u64>) -> Result<
    OutputView,
    PrecompileError,
> {
    charged(native_result(kind, input, gas_limit), gas_limit)
}

/// Charges a native result against the limit.
pub fn charge(r: Result<HandlerOutput, PrecompileError>, gas_limit: Option<u64>) -> (c: Result<
    HandlerOutput,
    PrecompileError,
>)
    ensures
        result_view(c) == charged(result_view(r), gas_limit),
        r is Ok && c is Ok ==> c->Ok_0 == r->Ok_0,
{
    match r {
        Ok(o) => match gas_limit {
            Some(limit) => if o.cost > limit {
                Err(PrecompileError::OutOfGas)
            } else {
                Ok(o)
            },
            None => Ok(o),
        },
        Err(e) => Err(e),
    }
}

/// Runs the precompile `kind` on `input`. The result is a function of the kind,
/// the input and the limit alone. A call never returns an output whose cost is
/// above a given limit.
pub fn execute_precompile(kind: Precompile, input: &[u8], gas_limit: Option<u64>) -> (r: Result<
    HandlerOutput,
    PrecompileError,
>)
    ensures
        result_view(r) == precompile_result(kind, input@, gas_limit),
        r is Ok && gas_limit is Some ==> r->Ok_0.cost <= gas_limit->0,
{
    let raw = match kind {
        Precompile::EcRecover => run_ecrecover(input, gas_limit),
        Precompile::Sha256 => run_sha256(input, gas_limit),
        Precompile::Ripemd160 => run_ripemd160(input, gas_limit),
        Precompile::Identity => run_identity(input, gas_limit),
        Precompile::Modexp => run_modexp(input, gas_limit),
        Precompile::EcRecoverPublicKey => run_ecrecover_public_key(input, gas_limit),
        Precompile::Sha3Fips256 => run_sha3_fips256(input, gas_limit),
        Precompile::Blake2F => run_blake2f(input, gas_limit),
        Precompile::Bn128Pairing => if (input.len() / 192) as u64 > MAX_PAIRINGS {
            Err(PrecompileError::OutOfGas)
        } else {
            run_bn128_pairing(input, gas_limit)
        },
        Precompile::Bn128Add => run_bn128_add(input, gas_limit),
        Precompile::Bn128Mul => run_bn128_mul(input, gas_limit),
        Precompile::Curve25519Add => run_curve25519_add(input, gas_limit),
        Precompile::Curve25519ScalarMul => run_curve25519_scalar_mul(input, gas_limit),
        Precompile::Ed25519Verify => run_ed25519_verify(input, gas_limit),
    };
    charge(raw, gas_limit)
}

/// Whether the function of `kind` holds its cost against the limit before it
/// refuses an input for what it holds.
pub open spec fn charges_first(kind: Precompile) -> bool {
    kind != Precompile::Modexp && kind != Precompile::Bn128Add && kind != Precompile::Bn128Mul
}

/// The declared cost of a call of `kind` on an input, where the cost follows
/// from the kind, the length and the round count alone: not for `Modexp`, whose
/// cost depends on the numbers that the input holds, and not for an input that
/// `Blake2F` refuses for its length.
pub open spec fn declared_cost(kind: Precompile, input: Seq<u8>) -> Option<nat> {
    match kind {
        Precompile::EcRecover => Some(linear_cost(3000, 0, input.len())),
        Precompile::Sha256 => Some(linear_cost(60, 12, input.len())),
        Precompile::Ripemd160 => Some(linear_cost(600, 120, input.len())),
        Precompile::Identity => Some(linear_cost(15, 3, input.len())),
        Precompile::Modexp => None,
        Precompile::EcRecoverPublicKey => Some(linear_cost(3000, 0, input.len())),
        Precompile::Sha3Fips256 => Some(linear_cost(60, 12, input.len())),
        Precompile::Blake2F => if input.len() == 213 {
            Some(blake2f_rounds(input))
        } else {
            None
        },
        Precompile::Bn128Pairing => Some(pairing_cost(input.len())),
        Precompile::Bn128Add => Some(150),
        Precompile::Bn128Mul => Some(6000),
        Precompile::Curve25519Add => Some(linear_cost(60, 12, input.len())),
        Precompile::Curve25519ScalarMul => Some(linear_cost(60, 12, input.len())),
        Precompile::Ed25519Verify => Some(linear_cost(15, 3, input.len())),
    }
}

/// A call with a limit below the declared cost never succeeds; it fails as out
/// of gas where the function holds the cost against the limit first. A call
/// that succeeds costs exactly the declared cost.
pub proof fn lemma_gas_below_cost(kind: Precompile, input: Seq<u8>, limit: u64)
    requires
        declared_cost(kind, input) is Some,
    ensures
        limit < declared_cost(kind, input)->0 ==> precompile_result(kind, input, Some(limit))
            is Err,
        limit < declared_cost(kind, input)->0 && charges_first(kind) ==> precompile_result(
            kind,
            input,
            Some(limit),
        )->Err_0 == PrecompileError::OutOfGas,
        precompile_result(kind, input, Some(limit)) is Ok ==> precompile_result(
            kind,
            input,
            Some(limit),
        )->Ok_0.cost == declared_cost(kind, input)->0,
{
    if kind == Precompile::Bn128Pairing {
        assert(input.len() / 192 > MAX_PAIRINGS ==> pairing_cost(input.len()) > u64::MAX);
        assert(input.len() / 192 <= MAX_PAIRINGS ==> pairing_cost(input.len()) <= u64::MAX);
    }
    if kind == Precompile::Blake2F && input.len() == 213 {
        assert(blake2f_rounds(input) <= u32::MAX);
    }
}

/// Whatever the kind, a call with a limit returns no output whose cost is above
/// the limit.
pub proof fn lemma_never_above_limit(kind: Precompile, input: Seq<u8>, limit: u64)
    ensures
        precompile_result(kind, input, Some(limit)) is Ok ==> precompile_result(
            kind,
            input,
            Some(limit),
        )->Ok_0.cost <= limit,
{
}

impl Registry {
    /// Runs the precompile that the registry holds at `address` on `input`;
    /// `None` where it holds none there, so that the caller goes on to the code
    /// of the account.
    pub fn dispatch(&self, address: &Address, input: &[u8], gas_limit: Option<u64>) -> (r: Option<
        Result<HandlerOutput, PrecompileError>,
    >)
        ensures
            r is Some == self@.dom().contains(*address),
            r is Some ==> result_view(r->0) == precompile_result(
                self@[*address],
                input@,
                gas_limit,
            ),
            r is Some && r->0 is Ok && gas_limit is Some ==> r->0->Ok_0.cost <= gas_limit->0,
    {
        match self.resolve(address) {
            Some(kind) => Some(execute_precompile(kind, input, gas_limit)),
            None => None,
        }
    }
}

/// The interpreter asks the registry through this impl: a call to an address that
/// the registry holds runs the precompile there instead of account code, and
/// only such a call does.
impl PrecompileSet for Registry {
    fn execute(
        &self,
        address: H160,
        input: &[u8],
        gas_limit: Option<u64>,
        _context: &Context,
        _is_static: bool,
    ) -> (r: Option<Result<evm::executor::stack::PrecompileOutput, PrecompileFailure>>)
        ensures
            r is Some == self@.dom().contains(h160_address(address)),
            r is Some ==> native_view(r->0) == precompile_result(
                self@[h160_address(address)],
                input@,
                gas_limit,
            ),
    {
        match self.dispatch(&from_h160(&address), input, gas_limit) {
            Some(result) => Some(to_native(result)),
            None => None,
        }
    }

    fn is_precompile(&self, address: H160) -> (held: bool)
        ensures
            held == self@.dom().contains(h160_address(address)),
    {
        self.resolve(&from_h160(&address)).is_some()
    }
}

} // verus!
