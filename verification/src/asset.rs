//! The contract assets: for each system contract its build artifact, which holds
//! the creation bytecode, and its interface description.

use crate::abi::{check_interface, is_interface, Contract};
use crate::assoc::{absent_before, as_map, lemma_first_index_is, lemma_first_index_none};
use crate::state::copy_bytes;
use vstd::prelude::*;

verus! {

/// Why an asset could not be had.
#[derive(Clone, Copy, Debug, PartialEq, Eq, Structural)]
pub enum AssetError {
    /// The bundle holds no file of that name.
    Missing,
    /// The file is not what it should be: no JSON object with the expected
    /// members, or no interface description.
    Malformed,
}

/// A build artifact, as a mathematical value.
pub struct ArtifactView {
    pub byte_code: Seq<char>,
    pub deployed_byte_code: Seq<char>,
}

/// The build artifact of a contract: its creation bytecode and its runtime
/// bytecode, each as `0x` and hexadecimal digits.
#[derive(Clone, Debug, PartialEq, Eq)]
pub struct ArtifactData {
    pub byte_code: String,
    pub deployed_byte_code: String,
}

impl View for ArtifactData {
    type V = ArtifactView;

    open spec fn view(&self) -> ArtifactView {
        ArtifactView { byte_code: self.byte_code@, deployed_byte_code: self.deployed_byte_code@ }
    }
}

/// One file of the bundle.
#[derive(Clone, Debug, PartialEq, Eq)]
pub struct AssetFile {
    pub path: String,
    pub data: Vec<u8>,
}

/// The files of a sequence as pairs of path and content.
pub open spec fn file_pairs(files: Seq<AssetFile>) -> Seq<(Seq<char>, Seq<u8>)> {
    files.map_values(|f: AssetFile| (f.path@, f.data@))
}

/// The string that the member `key` of the JSON object `data` holds; `None`
/// where `data` is no JSON text, no object, has no such member, or the member is
/// no string.
pub uninterp spec fn json_string_member(data: Seq<u8>, key: Seq<char>) -> Option<Seq<char>>;

/// `serde_json::from_slice` into a `Value`, then `Value::get` and
/// `Value::as_str`: the string member `key` of a JSON object.
#[verifier::external_body]
fn json_string_field(data: &[u8], key: &str) -> (r: Option<String>)
    ensures
        match r {
            Some(s) => json_string_member(data@, key@) == Some(s@),
            None => json_string_member(data@, key@) is None,
        },
{
    let value: serde_json::Value = serde_json::from_slice(data).ok()?;
    value.get(key)?.as_str().map(|s| s.to_owned())
}

/// Whether the JSON object `data` has a member `key`, whatever the member holds;
/// `false` where `data` is no JSON text or no object.
pub uninterp spec fn json_has_member(data: Seq<u8>, key: Seq<char>) -> bool;

/// `serde_json::from_slice` into a `Value`, then `Value::get`: whether a JSON
/// object has the member `key`.
#[verifier::external_body]
fn json_member_exists(data: &[u8], key: &str) -> (there: bool)
    ensures
        there == json_has_member(data@, key@),
{
    let value: Option<serde_json::Value> = serde_json::from_slice(data).ok();
    value.map_or(false, |v| v.get(key).is_some())
}

/// The string that a JSON object holds under one of two names of a member: none
/// where it has both names, else the string under the name that it has.
pub open spec fn renamed_member(data: Seq<u8>, primary: Seq<char>, alias: Seq<char>) -> Option<
    Seq<char>,
> {
    if json_has_member(data, primary) && json_has_member(data, alias) {
        None
    } else if json_has_member(data, primary) {
        json_string_member(data, primary)
    } else {
        json_string_member(data, alias)
    }
}

/// The artifact that a JSON text holds. The creation bytecode is the member
/// `byte_code`, also called `bytecode`; the runtime bytecode is the member
/// `deployed_byte_code`, also called `deployedBytecode`. Both must be there as
/// strings, each under one of its names only.
pub open spec fn artifact_of(data: Seq<u8>) -> Option<ArtifactView> {
    let creation = renamed_member(data, "byte_code"@, "bytecode"@);
    let runtime = renamed_member(data, "deployed_byte_code"@, "deployedBytecode"@);
    if creation is Some && runtime is Some {
        Some(ArtifactView { byte_code: creation->0, deployed_byte_code: runtime->0 })
    } else {
        None
    }
}

/// Reads the string that a JSON object holds under one of two names of a member.
fn string_member(data: &[u8], primary: &str, alias: &str) -> (r: Option<String>)
    ensures
        match r {
            Some(s) => renamed_member(data@, primary@, alias@) == Some(s@),
            None => renamed_member(data@, primary@, alias@) is None,
        },
{
    let has_primary = json_member_exists(data, primary);
    if has_primary && json_member_exists(data, alias) {
        None
    } else if has_primary {
        json_string_field(data, primary)
    } else {
        json_string_field(data, alias)
    }
}

/// Reads a build artifact from its JSON text.
pub fn parse_artifact(data: &[u8]) -> (r: Option<ArtifactData>)
    ensures
        match r {
            Some(a) => artifact_of(data@) == Some(a@),
            None => artifact_of(data@) is None,
        },
{
    let creation = string_member(data, "byte_code", "bytecode");
    let runtime = string_member(data, "deployed_byte_code", "deployedBytecode");
    match (creation, runtime) {
        (Some(byte_code), Some(deployed_byte_code)) => Some(
            ArtifactData { byte_code, deployed_byte_code },
        ),
        _ => None,
    }
}

/// The bundle of contract assets, as the files that were loaded from the build
/// output. Of two files with one path the earlier one counts.
#[derive(Clone, Debug)]
pub struct Asset {
    files: Vec<AssetFile>,
}

impl View for Asset {
    type V = Map<Seq<char>, Seq<u8>>;

    closed spec fn view(&self) -> Map<Seq<char>, Seq<u8>> {
        as_map(file_pairs(self.files@))
    }
}

/// The artifact in the file `path` of a bundle.
pub open spec fn artifact_in(bundle: Map<Seq<char>, Seq<u8>>, path: Seq<char>) -> Result<
    ArtifactView,
    AssetError,
> {
    if !bundle.dom().contains(path) {
        Err(AssetError::Missing)
    } else {
        match artifact_of(bundle[path]) {
            Some(a) => Ok(a),
            None => Err(AssetError::Malformed),
        }
    }
}

/// The interface description in the file `path` of a bundle: the file's text,
/// where it is tame and loads.
pub open spec fn contract_in(bundle: Map<Seq<char>, Seq<u8>>, path: Seq<char>) -> Result<
    Seq<u8>,
    AssetError,
> {
    if !bundle.dom().contains(path) {
        Err(AssetError::Missing)
    } else if is_interface(bundle[path]) {
        Ok(bundle[path])
    } else {
        Err(AssetError::Malformed)
    }
}

/// The result of reading an artifact, as a mathematical value.
pub open spec fn artifact_result_view(r: Result<ArtifactData, AssetError>) -> Result<
    ArtifactView,
    AssetError,
> {
    match r {
        Ok(a) => Ok(a@),
        Err(e) => Err(e),
    }
}

/// The result of reading an interface description, as a mathematical value.
pub open spec fn contract_result_view(r: Result<Contract, AssetError>) -> Result<
    Seq<u8>,
    AssetError,
> {
    match r {
        Ok(c) => Ok(c@),
        Err(e) => Err(e),
    }
}

impl Asset {
    /// The bundle that holds `files`.
    pub fn new(files: Vec<AssetFile>) -> (a: Asset)
        ensures
            a@ == as_map(file_pairs(files@)),
    {
        Asset { files }
    }

    /// The content of the file `filename`, if the bundle holds it.
    pub fn get(&self, filename: &str) -> (r: Option<&Vec<u8>>)
        ensures
            match r {
                Some(data) => self@.dom().contains(filename@) && self@[filename@] == data@,
                None => !self@.dom().contains(filename@),
            },
    {
        let name = String::from_str(filename);
        let ghost pairs = file_pairs(self.files@);
        let mut i: usize = 0;
        while i < self.files.len()
            invariant
                i <= self.files.len(),
                name@ == filename@,
                pairs == file_pairs(self.files@),
                absent_before(pairs, filename@, i as int),
            decreases self.files.len() - i,
        {
            if self.files[i].path == name {
                proof {
                    lemma_first_index_is(pairs, filename@, i as int);
                }
                return Some(&self.files[i].data);
            }
            assert(pairs[i as int].0 != filename@);
            i += 1;
        }
        proof {
            lemma_first_index_none(pairs, filename@);
        }
        None
    }

    /// The build artifact in the file `filename`.
    pub fn artifact(&self, filename: &str) -> (r: Result<ArtifactData, AssetError>)
        ensures
            artifact_result_view(r) == artifact_in(self@, filename@),
    {
        match self.get(filename) {
            None => Err(AssetError::Missing),
            Some(data) => match parse_artifact(data.as_slice()) {
                Some(a) => Ok(a),
                None => Err(AssetError::Malformed),
            },
        }
    }

    /// The interface description in the file `filename`.
    pub fn contract(&self, filename: &str) -> (r: Result<Contract, AssetError>)
        ensures
            contract_result_view(r) == contract_in(self@, filename@),
    {
        match self.get(filename) {
            None => Err(AssetError::Missing),
            Some(data) => if check_interface(data.as_slice()) {
                Ok(Contract { abi: copy_bytes(data) })
            } else {
                Err(AssetError::Malformed)
            },
        }
    }

    /// The build artifact of the staking contract.
    pub fn staking_artifact(&self) -> (r: Result<ArtifactData, AssetError>)
        ensures
            artifact_result_view(r) == artifact_in(self@, "contracts/Staking.json"@),
    {
        self.artifact("contracts/Staking.json")
    }

    /// The interface description of the staking contract.
    pub fn staking_contract(&self) -> (r: Result<Contract, AssetError>)
        ensures
            contract_result_view(r) == contract_in(self@, "abi/Staking.json"@),
    {
        self.contract("abi/Staking.json")
    }
}

} // verus!
