//! Chain-level data: the network a runtime operates against and the output
//! coordinates the ownership filter compares.

use vstd::prelude::*;
use vstd::string::StringExecFns;

verus! {

/// Identifies which chain network a runtime operates against. Immutable after
/// construction of the runtime.
#[derive(Clone, Copy, Debug, PartialEq, Eq, Hash, Structural)]
pub enum Network {
    Mainnet,
    Testnet3,
    Testnet4,
    Signet,
    Regtest,
}

/// The coarser network label used for addresses: every testnet variant shares
/// one label, while mainnet and regtest keep their own.
#[derive(Clone, Copy, Debug, PartialEq, Eq, Hash, Structural)]
pub enum AddressNetwork {
    Mainnet,
    Testnet,
    Regtest,
}

/// The chain a coordinate lives on.
#[derive(Clone, Copy, Debug, PartialEq, Eq, Hash, Structural)]
pub enum Chain {
    Bitcoin,
    Liquid,
}

/// A coordinate identifying one spendable output on a chain: the identifier of
/// the transaction that created it and the output's index in that transaction.
#[derive(Clone, Copy, Debug, PartialEq, Eq, Hash, Structural)]
pub struct Outpoint {
    pub txid: u64,
    pub vout: u32,
}

/// An output coordinate qualified by the chain it lives on; the ownership
/// filter takes these, so that outputs on a side chain are never mistaken for
/// wallet-controlled ones.
#[derive(Clone, Copy, Debug, PartialEq, Eq, Hash, Structural)]
pub struct XOutpoint {
    pub chain: Chain,
    pub outpoint: Outpoint,
}

impl From<Outpoint> for XOutpoint {
    /// A bare outpoint is taken to live on the Bitcoin chain.
    fn from(outpoint: Outpoint) -> (r: XOutpoint) {
        XOutpoint { chain: Chain::Bitcoin, outpoint }
    }
}

impl vstd::std_specs::convert::FromSpecImpl<Outpoint> for XOutpoint {
    open spec fn obeys_from_spec() -> bool {
        true
    }

    open spec fn from_spec(outpoint: Outpoint) -> XOutpoint {
        XOutpoint { chain: Chain::Bitcoin, outpoint }
    }
}

impl Network {
    /// Whether the network is any of the test networks. Only mainnet is not.
    pub open spec fn spec_is_testnet(self) -> bool {
        self != Network::Mainnet
    }

    /// Whether the network is any of the test networks.
    pub fn is_testnet(&self) -> (r: bool)
        ensures
            r == self.spec_is_testnet(),
    {
        match self {
            Network::Mainnet => false,
            _ => true,
        }
    }

    /// The address-network label this network projects to.
    pub open spec fn spec_address_network(self) -> AddressNetwork {
        match self {
            Network::Mainnet => AddressNetwork::Mainnet,
            Network::Testnet3 => AddressNetwork::Testnet,
            Network::Testnet4 => AddressNetwork::Testnet,
            Network::Signet => AddressNetwork::Testnet,
            Network::Regtest => AddressNetwork::Regtest,
        }
    }

    /// The textual identifier of the network, used as the name of its data
    /// subdirectory.
    pub open spec fn spec_text(self) -> Seq<char> {
        match self {
            Network::Mainnet => "bitcoin"@,
            Network::Testnet3 => "testnet"@,
            Network::Testnet4 => "testnet4"@,
            Network::Signet => "signet"@,
            Network::Regtest => "regtest"@,
        }
    }

    /// The textual identifier of the network.
    pub fn text(&self) -> (r: String)
        ensures
            r@ == self.spec_text(),
    {
        match self {
            Network::Mainnet => String::from_str("bitcoin"),
            Network::Testnet3 => String::from_str("testnet"),
            Network::Testnet4 => String::from_str("testnet4"),
            Network::Signet => String::from_str("signet"),
            Network::Regtest => String::from_str("regtest"),
        }
    }
}

} // verus!
