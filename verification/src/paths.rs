//! Deterministic on-disk layout: where a runtime keeps its state, derived
//! from the caller's base data directory and the network.
//!
//! State for different networks never collides because every path is nested
//! under a network-specific subdirectory of the base directory: the store
//! lives at `base/<network>/stock.dat` and a named wallet at
//! `base/<network>/<wallet-name>`.

use vstd::prelude::*;
use vstd::string::StringExecFns;

use crate::chain::Network;

verus! {

/// The network-specific data directory: `base/<network>`.
pub open spec fn spec_data_dir(base: Seq<char>, network: Network) -> Seq<char> {
    base + "/"@ + network.spec_text()
}

/// The store file inside the network's data directory:
/// `base/<network>/stock.dat`.
pub open spec fn spec_stock_path(base: Seq<char>, network: Network) -> Seq<char> {
    spec_data_dir(base, network) + "/stock.dat"@
}

/// A named wallet inside the network's data directory:
/// `base/<network>/<wallet-name>`.
pub open spec fn spec_wallet_path(base: Seq<char>, network: Network, wallet_name: Seq<
    char,
>) -> Seq<char> {
    spec_data_dir(base, network) + "/"@ + wallet_name
}

/// The network-specific data directory, to be created (recursively) before
/// the runtime's state is read or written.
pub fn data_dir_path(base: &str, network: Network) -> (r: String)
    ensures
        r@ == spec_data_dir(base@, network),
{
    let mut path = String::new();
    path.append(base);
    path.append("/");
    let text = network.text();
    path.append(text.as_str());
    proof {
        assert(path@ =~= spec_data_dir(base@, network));
    }
    path
}

/// The path of the store file for this base directory and network.
pub fn stock_file_path(base: &str, network: Network) -> (r: String)
    ensures
        r@ == spec_stock_path(base@, network),
{
    let mut path = data_dir_path(base, network);
    path.append("/stock.dat");
    proof {
        assert(path@ =~= spec_stock_path(base@, network));
    }
    path
}

/// The path of the named wallet for this base directory and network.
pub fn wallet_file_path(base: &str, network: Network, wallet_name: &str) -> (r: String)
    ensures
        r@ == spec_wallet_path(base@, network, wallet_name@),
{
    let mut path = data_dir_path(base, network);
    path.append("/");
    path.append(wallet_name);
    proof {
        assert(path@ =~= spec_wallet_path(base@, network, wallet_name@));
    }
    path
}

} // verus!
