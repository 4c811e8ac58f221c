//! Constructor arguments and their encoding into call data.

use crate::abitext::{is_tame, tame_text};
use crate::bridge::{to_h160, to_u256};
use crate::primitives::{Address, Word};
use vstd::prelude::*;

verus! {

/// One argument of a contract call, as a mathematical value.
pub enum AbiValueView {
    Address(Address),
    Uint(Word),
    Bytes(Seq<u8>),
    AddressArray(Seq<Address>),
    UintArray(Seq<Word>),
}

/// One argument of a contract call.
#[derive(Clone, Debug, PartialEq, Eq)]
pub enum AbiValue {
    /// An address.
    Address(Address),
    /// An unsigned integer of up to 256 bits.
    Uint(Word),
    /// A byte string of any length.
    Bytes(Vec<u8>),
    /// A list of addresses of any length.
    AddressArray(Vec<Address>),
    /// A list of unsigned integers of any length.
    UintArray(Vec<Word>),
}

impl View for AbiValue {
    type V = AbiValueView;

    open spec fn view(&self) -> AbiValueView {
        match self {
            AbiValue::Address(a) => AbiValueView::Address(*a),
            AbiValue::Uint(w) => AbiValueView::Uint(*w),
            AbiValue::Bytes(b) => AbiValueView::Bytes(b@),
            AbiValue::AddressArray(v) => AbiValueView::AddressArray(v@),
            AbiValue::UintArray(v) => AbiValueView::UintArray(v@),
        }
    }
}

/// The arguments of a sequence, each as a mathematical value.
pub open spec fn value_views(values: Seq<AbiValue>) -> Seq<AbiValueView> {
    values.map_values(|v: AbiValue| v@)
}

/// The interface description of a contract: the JSON text that lists its
/// constructor and functions with their parameter types.
#[derive(Clone, Debug, PartialEq, Eq)]
pub struct Contract {
    pub abi: Vec<u8>,
}

impl View for Contract {
    type V = Seq<u8>;

    open spec fn view(&self) -> Seq<u8> {
        self.abi@
    }
}

/// `ethabi::Token`, one argument as the encoder takes it. Values are carried,
/// never looked into.
#[verifier::external_type_specification]
#[verifier::external_body]
pub struct ExToken(ethabi::Token);

/// Whether a tame text is an interface description that `ethabi` can load.
pub uninterp spec fn abi_is_loadable(abi: Seq<u8>) -> bool;

/// The call data of the first function called `name` in an interface description
/// for the given arguments: its selector and the encoded arguments. `None` where
/// the description does not load, has no such function, or the arguments do not
/// match the function's parameter types.
pub uninterp spec fn abi_function_input(abi: Seq<u8>, name: Seq<char>, inputs: Seq<AbiValueView>) -> Option<
    Seq<u8>,
>;

/// The constructor data of an interface description for the given code and
/// arguments: the code followed by the encoded arguments. `None` where the
/// description does not load, declares no constructor, or the arguments do not
/// match the constructor's parameter types.
pub uninterp spec fn abi_constructor_input(abi: Seq<u8>, code: Seq<u8>, inputs: Seq<AbiValueView>) -> Option<
    Seq<u8>,
>;

/// Builds the `ethabi::Token` of an argument: an address, an unsigned integer, a
/// byte string, or an array of addresses or unsigned integers. Nothing is
/// claimed of the result.
#[verifier::external_body]
fn abi_token(value: &AbiValue) -> ethabi::Token {
    match value {
        AbiValue::Address(a) => ethabi::Token::Address(to_h160(a)),
        AbiValue::Uint(w) => ethabi::Token::Uint(to_u256(w)),
        AbiValue::Bytes(b) => ethabi::Token::Bytes(b.clone()),
        AbiValue::AddressArray(v) => ethabi::Token::Array(
            v.iter().map(|a| ethabi::Token::Address(to_h160(a))).collect(),
        ),
        AbiValue::UintArray(v) => ethabi::Token::Array(
            v.iter().map(|w| ethabi::Token::Uint(to_u256(w))).collect(),
        ),
    }
}

/// Builds the `ethabi::Token` of each argument, in order. Nothing is claimed of
/// the result.
#[verifier::external_body]
fn abi_tokens(values: &[AbiValue]) -> Vec<ethabi::Token> {
    values.iter().map(abi_token).collect()
}

/// `ethabi::Contract::load`: whether the text loads. The decoder stops the
/// program on some strings that end in `)` or `]`; a tame text has none of them.
#[verifier::external_body]
pub(crate) fn abi_loads(abi: &[u8]) -> (ok: bool)
    requires
        tame_text(abi@),
    ensures
        ok == abi_is_loadable(abi@),
{
    ethabi::Contract::load(abi).is_ok()
}

/// `ethabi::Function::encode_input` on the first function called `name` of the
/// description, loaded by `ethabi::Contract::load`. The encoding depends on the
/// description, the name and the arguments alone. The text must be tame, as for
/// every load.
#[verifier::external_body]
pub(crate) fn encode_function_input(abi: &[u8], name: &str, inputs: &[AbiValue]) -> (data: Option<
    Vec<u8>,
>)
    requires
        tame_text(abi@),
    ensures
        match data {
            Some(bytes) => abi_function_input(abi@, name@, value_views(inputs@)) == Some(bytes@),
            None => abi_function_input(abi@, name@, value_views(inputs@)) is None,
        },
{
    let contract = ethabi::Contract::load(abi).ok()?;
    contract.functions.get(name)?.first()?.encode_input(&abi_tokens(inputs)).ok()
}

/// `ethabi::Constructor::encode_input` on the constructor of the description,
/// loaded by `ethabi::Contract::load`. The encoding depends on the description,
/// the code and the arguments alone. The text must be tame, as for every load.
#[verifier::external_body]
pub(crate) fn encode_constructor_input(abi: &[u8], code: Vec<u8>, inputs: &[AbiValue]) -> (data:
    Option<Vec<u8>>)
    requires
        tame_text(abi@),
    ensures
        match data {
            Some(bytes) => abi_constructor_input(abi@, code@, value_views(inputs@)) == Some(bytes@),
            None => abi_constructor_input(abi@, code@, value_views(inputs@)) is None,
        },
{
    let contract = ethabi::Contract::load(abi).ok()?;
    contract.constructor()?.encode_input(code, &abi_tokens(inputs)).ok()
}

/// The constructor call of a system contract, as bytes: the arguments are
/// encoded as a call of the function `ctor`, and that call data is then encoded
/// as the one byte-string argument of the constructor. A text that is not tame
/// has no constructor call.
pub open spec fn constructor_call(abi: Seq<u8>, inputs: Seq<AbiValueView>) -> Option<Seq<u8>> {
    if !tame_text(abi) {
        None
    } else {
        match abi_function_input(abi, "ctor"@, inputs) {
            Some(call) => abi_constructor_input(
                abi,
                Seq::empty(),
                seq![AbiValueView::Bytes(call)],
            ),
            None => None,
        }
    }
}

/// Whether a text is an interface description: tame, and loadable.
pub open spec fn is_interface(abi: Seq<u8>) -> bool {
    tame_text(abi) && abi_is_loadable(abi)
}

/// Whether a text is an interface description.
pub fn check_interface(abi: &[u8]) -> (ok: bool)
    ensures
        ok == is_interface(abi@),
{
    is_tame(abi) && abi_loads(abi)
}

/// Encodes the constructor call of a system contract.
pub fn encode_constructor_call(contract: &Contract, inputs: &[AbiValue]) -> (data: Option<Vec<u8>>)
    ensures
        match data {
            Some(bytes) => constructor_call(contract@, value_views(inputs@)) == Some(bytes@),
            None => constructor_call(contract@, value_views(inputs@)) is None,
        },
{
    if !is_tame(contract.abi.as_slice()) {
        return None;
    }
    let call = match encode_function_input(contract.abi.as_slice(), "ctor", inputs) {
        Some(call) => call,
        None => {
            return None;
        },
    };
    let ghost call_view = call@;
    let mut wrapped: Vec<AbiValue> = Vec::new();
    wrapped.push(AbiValue::Bytes(call));
    assert(value_views(wrapped@) =~= seq![AbiValueView::Bytes(call_view)]);
    encode_constructor_input(contract.abi.as_slice(), Vec::new(), wrapped.as_slice())
}

} // verus!
