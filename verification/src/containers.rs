//! Protocol containers consumed by the runtime: contracts and transfers.
//!
//! Both are externally-defined protocol data; the runtime reads only the
//! fields modelled here. A contract describes a smart contract's genesis; a
//! transfer describes a proposed movement of contract-bound value and carries
//! the genesis of the contract it belongs to, so that accepting it can create
//! the contract when the store does not know it yet.

use vstd::prelude::*;

verus! {

/// Externally-defined immutable protocol data describing a smart contract:
/// its identifier, whether its source satisfies the structural requirements of
/// its schema, its genesis payload, and the witness transactions whose
/// confirmation height import resolves.
#[derive(Clone, Debug, PartialEq, Eq)]
pub struct Contract {
    pub id: u64,
    pub schema_ok: bool,
    pub genesis: Vec<u8>,
    pub witnesses: Vec<u64>,
}

/// The mathematical model of a [`Contract`].
#[verifier::ext_equal]
pub struct ContractModel {
    pub id: u64,
    pub schema_ok: bool,
    pub genesis: Seq<u8>,
    pub witnesses: Seq<u64>,
}

impl View for Contract {
    type V = ContractModel;

    open spec fn view(&self) -> ContractModel {
        ContractModel {
            id: self.id,
            schema_ok: self.schema_ok,
            genesis: self.genesis@,
            witnesses: self.witnesses@,
        }
    }
}

/// Externally-defined protocol data describing a proposed movement of
/// contract-bound value: the contract it belongs to, whether it decodes into a
/// structurally sound consignment, the network it was built for, the genesis
/// of its contract, the witness transactions validation resolves, and the
/// state operations accepting it folds into the store.
#[derive(Clone, Debug, PartialEq, Eq)]
pub struct Transfer {
    pub contract_id: u64,
    pub structure_ok: bool,
    pub testnet: bool,
    pub genesis: Vec<u8>,
    pub witnesses: Vec<u64>,
    pub ops: Vec<u64>,
}

/// The mathematical model of a [`Transfer`].
#[verifier::ext_equal]
pub struct TransferModel {
    pub contract_id: u64,
    pub structure_ok: bool,
    pub testnet: bool,
    pub genesis: Seq<u8>,
    pub witnesses: Seq<u64>,
    pub ops: Seq<u64>,
}

impl View for Transfer {
    type V = TransferModel;

    open spec fn view(&self) -> TransferModel {
        TransferModel {
            contract_id: self.contract_id,
            structure_ok: self.structure_ok,
            testnet: self.testnet,
            genesis: self.genesis@,
            witnesses: self.witnesses@,
            ops: self.ops@,
        }
    }
}

} // verus!
