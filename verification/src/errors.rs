//! The error taxonomy: one tagged union able to represent failure from every
//! subsystem the runtime touches, while keeping causes distinguishable.
//!
//! Every fallible runtime operation reports through [`RuntimeError`]; callers
//! decide retry or abort policy. Validation failures carry the full
//! [`Status`](crate::validation::Status) so callers can present structured
//! diagnostics. Some kinds exist for interface uniformity with subsystems
//! whose error channel never fires in this composition; those are never
//! constructed by the runtime itself.

use vstd::prelude::*;
use vstd::string::StringExecFns;

use crate::validation::Status;
use crate::wallet::WalletFailure;

verus! {

/// An underlying filesystem failure during load or store, as the embedding
/// program reports it.
#[derive(Clone, Copy, Debug, PartialEq, Eq, Structural)]
pub enum IoFailure {
    NotFound,
    PermissionDenied,
    Other,
}

/// Why an on-disk contract-state blob could not be decoded.
#[derive(Clone, Copy, Debug, PartialEq, Eq, Structural)]
pub enum DecodeFailure {
    /// The store file was absent or could not be read.
    UnreadableFile,
    /// The blob does not begin with the store's magic bytes.
    BadMagic,
    /// The blob's format version is not one this store understands; carries
    /// the version found.
    UnsupportedVersion(u8),
    /// The blob ends before the structure it announces is complete.
    Truncated,
    /// Bytes follow the end of the announced structure.
    TrailingBytes,
    /// Two contract records carry the same identifier.
    DuplicateContract,
}

/// An internal consistency error raised by the contract-state store during
/// import or accept.
#[derive(Clone, Copy, Debug, PartialEq, Eq, Structural)]
pub enum InventoryFailure {
    /// The store already holds a different contract under this identifier.
    ContractMismatch(u64),
}

/// A failure from any subsystem the runtime touches. Non-exhaustive by
/// intent: kinds that only some capabilities can raise are part of the
/// taxonomy so that every call site reports through one type.
#[derive(Clone, Debug, PartialEq, Eq)]
pub enum RuntimeError {
    /// Underlying filesystem failure during load or store.
    Io(IoFailure),
    /// The contract-state store could not be encoded; carries a description.
    Serialize(String),
    /// The on-disk contract-state blob could not be decoded.
    Deserialize(DecodeFailure),
    /// A higher-level container failed to load from its serialized form;
    /// carries a description.
    Load(String),
    /// A consistency error from the store's stash layer; carries a
    /// description. The resolver-error channel of this kind is statically
    /// empty here and is never constructed.
    Stash(String),
    /// A consistency error from the store's inventory layer.
    Inventory(InventoryFailure),
    /// A consignment or transfer construction error surfaced from the
    /// protocol layer; carries a description.
    Builder(String),
    /// A partially-signed transaction blob failed to decode; carries a
    /// description.
    PsbtDecode(String),
    /// The referenced wallet identifier has no corresponding on-disk wallet;
    /// carries the identifier.
    WalletUnknown(String),
    /// Validation completed with a failing status; carries that status.
    InvalidConsignment(Status),
    /// A textual identifier failed to parse; carries the offending text.
    InvalidId(String),
    /// The contract source does not satisfy the structural requirements of
    /// its schema; carries the validation status.
    IncompleteContract(Status),
    /// A failure surfaced from the wallet subsystem, including its own load
    /// failures.
    WalletRuntime(WalletFailure),
    /// A chain-indexer or network client failure; carries a description.
    Remote(String),
    /// A configuration or settings-format error; carries a description.
    Config(String),
    /// A free-form message for situations not otherwise classified.
    Custom(String),
}

impl RuntimeError {
    /// A short stable name for the failure kind, for diagnostics.
    pub fn kind_name(&self) -> (r: String)
        ensures
            r@.len() > 0,
    {
        let text = match self {
            RuntimeError::Io(_) => "io",
            RuntimeError::Serialize(_) => "serialize",
            RuntimeError::Deserialize(_) => "deserialize",
            RuntimeError::Load(_) => "load",
            RuntimeError::Stash(_) => "stash",
            RuntimeError::Inventory(_) => "inventory",
            RuntimeError::Builder(_) => "builder",
            RuntimeError::PsbtDecode(_) => "psbt-decode",
            RuntimeError::WalletUnknown(_) => "wallet-unknown",
            RuntimeError::InvalidConsignment(_) => "invalid-consignment",
            RuntimeError::InvalidId(_) => "invalid-id",
            RuntimeError::IncompleteContract(_) => "incomplete-contract",
            RuntimeError::WalletRuntime(_) => "wallet-runtime",
            RuntimeError::Remote(_) => "remote",
            RuntimeError::Config(_) => "config",
            RuntimeError::Custom(_) => "custom",
        };
        proof {
            reveal_strlit("io");
            reveal_strlit("serialize");
            reveal_strlit("deserialize");
            reveal_strlit("load");
            reveal_strlit("stash");
            reveal_strlit("inventory");
            reveal_strlit("builder");
            reveal_strlit("psbt-decode");
            reveal_strlit("wallet-unknown");
            reveal_strlit("invalid-consignment");
            reveal_strlit("invalid-id");
            reveal_strlit("incomplete-contract");
            reveal_strlit("wallet-runtime");
            reveal_strlit("remote");
            reveal_strlit("config");
            reveal_strlit("custom");
        }
        String::from_str(text)
    }
}

impl From<DecodeFailure> for RuntimeError {
    fn from(e: DecodeFailure) -> (r: RuntimeError) {
        RuntimeError::Deserialize(e)
    }
}

impl vstd::std_specs::convert::FromSpecImpl<DecodeFailure> for RuntimeError {
    open spec fn obeys_from_spec() -> bool {
        true
    }

    open spec fn from_spec(e: DecodeFailure) -> RuntimeError {
        RuntimeError::Deserialize(e)
    }
}

impl From<WalletFailure> for RuntimeError {
    fn from(e: WalletFailure) -> (r: RuntimeError) {
        RuntimeError::WalletRuntime(e)
    }
}

impl vstd::std_specs::convert::FromSpecImpl<WalletFailure> for RuntimeError {
    open spec fn obeys_from_spec() -> bool {
        true
    }

    open spec fn from_spec(e: WalletFailure) -> RuntimeError {
        RuntimeError::WalletRuntime(e)
    }
}

} // verus!
