//! The runtime: the composed unit of work owning the contract-state store,
//! the wallet and the network context.
//!
//! A runtime is created once per activation, either loaded from disk or
//! freshly initialized, mutated through its operations, and torn down once:
//! [`Runtime::close`] yields what the teardown flush must write (nothing when
//! the runtime is clean), and [`Runtime::unload`] discards the runtime
//! without a flush. The runtime is *dirty* when its in-memory store differs
//! from what was loaded, which only a successful import or accept causes.
//!
//! All file input and output stays with the embedding program: constructors
//! take the bytes read from the store file (or nothing, when it could not be
//! read) and teardown hands back bytes and path to write.

use vstd::prelude::*;
use vstd::string::StringExecFns;

use crate::chain::{AddressNetwork, Chain, Network, XOutpoint};
use crate::codec::{decode_stock, encode_stock, spec_decode, spec_encode};
use crate::containers::{Contract, Transfer};
use crate::errors::{DecodeFailure, RuntimeError};
use crate::paths::{spec_stock_path, stock_file_path};
use crate::stock::{
    find_pos, import_verdict_matches, accept_verdict_matches, spec_accept, spec_import,
    unique_ids, EntryModel, Stock,
};
use crate::validation::{
    judge_failures, judge_transfer, witness_failures, ResolveHeight, ResolveTx, Status,
};
use crate::wallet::{Wallet, WalletFailure, WalletModel};

verus! {

/// The mathematical model of a [`Runtime`].
#[verifier::ext_equal]
pub struct RuntimeModel {
    pub stock_path: Seq<char>,
    pub stock: Seq<EntryModel>,
    pub wallet: WalletModel,
    pub network: Network,
    pub dirty: bool,
}

/// The runtime: exclusively owns the store, the wallet and the network value.
pub struct Runtime {
    stock_path: String,
    stock: Stock,
    wallet: Wallet,
    network: Network,
    dirty: bool,
}

impl View for Runtime {
    type V = RuntimeModel;

    closed spec fn view(&self) -> RuntimeModel {
        RuntimeModel {
            stock_path: self.stock_path@,
            stock: self.stock@,
            wallet: self.wallet@,
            network: self.network,
            dirty: self.dirty,
        }
    }
}

/// The bytes the embedding program read from the store file, or nothing when
/// the file was absent or unreadable.
pub open spec fn disk_model(disk: Option<Vec<u8>>) -> Option<Seq<u8>> {
    match disk {
        Some(bytes) => Some(bytes@),
        None => None,
    }
}

/// The store that loading yields: the decoded records when the blob was
/// readable and decodes, and otherwise the caller-supplied fresh store. This
/// keeps first-run and corrupted-state handling uniform and under the
/// caller's control.
pub open spec fn spec_load_stock(disk: Option<Seq<u8>>, init: Seq<EntryModel>) -> Seq<EntryModel> {
    match disk {
        None => init,
        Some(bytes) => match spec_decode(bytes) {
            Some(entries) => entries,
            None => init,
        },
    }
}

/// Whether the import transition inserts a record: a schema-satisfying
/// contract the store does not hold yet, all of whose witnesses resolved.
pub open spec fn import_inserts(s: Seq<EntryModel>, c: crate::containers::ContractModel, resolved: Seq<bool>) -> bool {
    &&& c.schema_ok
    &&& find_pos(s, c.id) is None
    &&& witness_failures(c.witnesses, resolved).len() == 0
}

/// Whether the accept transition folds the transfer into the store: every
/// structurally sound transfer under `force`, and otherwise exactly a
/// transfer that validates cleanly against a store holding no conflicting
/// genesis.
pub open spec fn accept_folds(
    s: Seq<EntryModel>,
    t: crate::containers::TransferModel,
    resolved: Seq<bool>,
    force: bool,
    testnet: bool,
) -> bool {
    &&& t.structure_ok
    &&& (force || (judge_failures(t, resolved, testnet).len() == 0 && !(match find_pos(
        s,
        t.contract_id,
    ) {
        Some(i) => s[i].genesis != t.genesis,
        None => false,
    })))
}

/// Whether the wallet currently controls the output: the output lives on the
/// Bitcoin chain and its coordinate is among the wallet's tracked outputs.
pub open spec fn spec_includes(w: WalletModel, output: XOutpoint) -> bool {
    output.chain == Chain::Bitcoin && exists|i: int|
        0 <= i < w.utxos.len() && w.utxos[i].outpoint == output.outpoint
}

impl Runtime {
    /// The store's contract identifiers are unique. Every constructor
    /// establishes this and every operation preserves it, so it holds of
    /// every runtime a caller can own.
    pub open spec fn wf(self) -> bool {
        unique_ids(self@.stock)
    }

    /// Loads a runtime strictly: the wallet must have loaded and the store
    /// blob must have been read and must decode; any failure is reported, a
    /// missing wallet as `WalletUnknown` under the referenced name, another
    /// wallet failure as `WalletRuntime`, an unreadable or undecodable store
    /// as `Deserialize`.
    pub fn load(
        data_dir: &str,
        wallet_name: &str,
        network: Network,
        wallet_load: Result<Wallet, WalletFailure>,
        disk: Option<Vec<u8>>,
    ) -> (r: Result<Runtime, RuntimeError>)
        ensures
            match wallet_load {
                Err(e) => if e == WalletFailure::Absent {
                    r matches Err(RuntimeError::WalletUnknown(name)) && name@ == wallet_name@
                } else {
                    r matches Err(RuntimeError::WalletRuntime(e2)) && e2 == e
                },
                Ok(w) => match disk_model(disk) {
                    None => r matches Err(
                        RuntimeError::Deserialize(DecodeFailure::UnreadableFile),
                    ),
                    Some(bytes) => match spec_decode(bytes) {
                        None => r matches Err(RuntimeError::Deserialize(_)),
                        Some(entries) => r matches Ok(rt) && rt@ == (RuntimeModel {
                            stock_path: spec_stock_path(data_dir@, network),
                            stock: entries,
                            wallet: w@,
                            network,
                            dirty: false,
                        }) && rt.wf(),
                    },
                },
            },
    {
        let wallet = match wallet_load {
            Ok(w) => w,
            Err(e) => {
                return match e {
                    WalletFailure::Absent => Err(
                        RuntimeError::WalletUnknown(String::from_str(wallet_name)),
                    ),
                    other => Err(RuntimeError::WalletRuntime(other)),
                };
            },
        };
        let bytes = match disk {
            Some(b) => b,
            None => {
                return Err(RuntimeError::Deserialize(DecodeFailure::UnreadableFile));
            },
        };
        let stock = match decode_stock(&bytes) {
            Ok(s) => s,
            Err(e) => {
                return Err(RuntimeError::Deserialize(e));
            },
        };
        let stock_path = stock_file_path(data_dir, network);
        let rt = Runtime { stock_path, stock, wallet, network, dirty: false };
        proof {
            assert(rt@ =~= RuntimeModel {
                stock_path: spec_stock_path(data_dir@, network),
                stock: rt@.stock,
                wallet: rt@.wallet,
                network,
                dirty: false,
            });
        }
        Ok(rt)
    }

    /// As [`Runtime::load`], but over an already-constructed wallet obtained
    /// through another flow.
    pub fn load_attach(data_dir: &str, network: Network, wallet: Wallet, disk: Option<Vec<u8>>) -> (r:
        Result<Runtime, RuntimeError>)
        ensures
            match disk_model(disk) {
                None => r matches Err(RuntimeError::Deserialize(DecodeFailure::UnreadableFile)),
                Some(bytes) => match spec_decode(bytes) {
                    None => r matches Err(RuntimeError::Deserialize(_)),
                    Some(entries) => r matches Ok(rt) && rt@ == (RuntimeModel {
                        stock_path: spec_stock_path(data_dir@, network),
                        stock: entries,
                        wallet: wallet@,
                        network,
                        dirty: false,
                    }) && rt.wf(),
                },
            },
    {
        // The wallet is supplied directly, so no wallet name is ever
        // referenced in an error.
        Runtime::load(data_dir, "", network, Ok(wallet), disk)
    }

    /// Loads a runtime, resolving first-run and corrupted-state scenarios to
    /// a usable runtime instead of an error: a wallet that failed to load is
    /// replaced by the caller's fresh wallet, and a store blob that is
    /// missing or does not decode is replaced by the caller's fresh store.
    pub fn load_or_init(
        data_dir: &str,
        network: Network,
        wallet_load: Result<Wallet, WalletFailure>,
        init_wallet: Wallet,
        disk: Option<Vec<u8>>,
        init_stock: Stock,
    ) -> (r: Result<Runtime, RuntimeError>)
        requires
            init_stock.wf(),
        ensures
            r matches Ok(rt) && rt@ == (RuntimeModel {
                stock_path: spec_stock_path(data_dir@, network),
                stock: spec_load_stock(disk_model(disk), init_stock@),
                wallet: match wallet_load {
                    Ok(w) => w@,
                    Err(_) => init_wallet@,
                },
                network,
                dirty: false,
            }) && rt.wf(),
    {
        let wallet = match wallet_load {
            Ok(w) => w,
            Err(_) => init_wallet,
        };
        Runtime::load_attach_or_init(data_dir, network, wallet, disk, init_stock)
    }

    /// As [`Runtime::load_or_init`], but over an already-constructed wallet.
    pub fn load_attach_or_init(
        data_dir: &str,
        network: Network,
        wallet: Wallet,
        disk: Option<Vec<u8>>,
        init_stock: Stock,
    ) -> (r: Result<Runtime, RuntimeError>)
        requires
            init_stock.wf(),
        ensures
            r matches Ok(rt) && rt@ == (RuntimeModel {
                stock_path: spec_stock_path(data_dir@, network),
                stock: spec_load_stock(disk_model(disk), init_stock@),
                wallet: wallet@,
                network,
                dirty: false,
            }) && rt.wf(),
    {
        let stock = match disk {
            Some(bytes) => match decode_stock(&bytes) {
                Ok(s) => s,
                Err(_) => init_stock,
            },
            None => init_stock,
        };
        let stock_path = stock_file_path(data_dir, network);
        let rt = Runtime { stock_path, stock, wallet, network, dirty: false };
        proof {
            assert(rt@ =~= RuntimeModel {
                stock_path: spec_stock_path(data_dir@, network),
                stock: rt@.stock,
                wallet: rt@.wallet,
                network,
                dirty: false,
            });
        }
        Ok(rt)
    }

    /// Replaces the wallet in place. No compatibility with existing contract
    /// state is checked: this is intentionally cheap and synchronous, and it
    /// does not touch the store or the dirty state.
    pub fn attach(&mut self, wallet: Wallet)
        ensures
            final(self)@ == (RuntimeModel { wallet: wallet@, ..old(self)@ }),
    {
        self.wallet = wallet;
        proof {
            assert(self@ =~= RuntimeModel { wallet: self@.wallet, ..old(self)@ });
        }
    }

    /// Disposes of the runtime without the teardown flush: the explicit
    /// escape hatch for a caller that already persisted the store.
    pub fn unload(self) {
    }

    /// Explicitly saves the store: hands back the stock path and the encoded
    /// store for the embedding program to write, and marks the runtime clean.
    pub fn store(&mut self) -> (r: (String, Vec<u8>))
        ensures
            final(self)@ == (RuntimeModel { dirty: false, ..old(self)@ }),
            r.0@ == old(self)@.stock_path,
            r.1@ == spec_encode(old(self)@.stock),
    {
        self.dirty = false;
        let bytes = encode_stock(&self.stock);
        let path = self.stock_path.clone();
        proof {
            assert(self@ =~= RuntimeModel { dirty: false, ..old(self)@ });
        }
        (path, bytes)
    }

    /// Tears the runtime down. A dirty runtime yields the stock path and the
    /// encoded store, which the embedding program must write on every exit
    /// path; a clean runtime yields nothing, so teardown without prior
    /// mutation never touches the on-disk store.
    pub fn close(self) -> (r: Option<(String, Vec<u8>)>)
        ensures
            !self@.dirty ==> r is None,
            self@.dirty ==> (r matches Some((path, bytes)) && path@ == self@.stock_path && bytes@
                == spec_encode(self@.stock)),
    {
        if self.dirty {
            let bytes = encode_stock(&self.stock);
            Some((self.stock_path, bytes))
        } else {
            None
        }
    }

    /// The address-network label of the runtime's network: a pure projection
    /// with no failure path.
    pub fn address_network(&self) -> (r: AddressNetwork)
        ensures
            r == self@.network.spec_address_network(),
    {
        match self.network {
            Network::Mainnet => AddressNetwork::Mainnet,
            Network::Testnet3 => AddressNetwork::Testnet,
            Network::Testnet4 => AddressNetwork::Testnet,
            Network::Signet => AddressNetwork::Testnet,
            Network::Regtest => AddressNetwork::Regtest,
        }
    }

    /// The ownership filter: whether the given output is currently controlled
    /// by this party's wallet. Read-only; absence is an ordinary `false`, not
    /// a failure. Correctness depends on the wallet's tracked-output view
    /// being current.
    pub fn include_output(&self, output: XOutpoint) -> (r: bool)
        ensures
            r == spec_includes(self@.wallet, output),
    {
        match output.chain {
            Chain::Bitcoin => {},
            Chain::Liquid => {
                return false;
            },
        }
        let coins = self.wallet.coins();
        let mut i: usize = 0;
        while i < coins.len()
            invariant
                0 <= i <= coins@.len(),
                output.chain == Chain::Bitcoin,
                coins@ == self@.wallet.utxos,
                forall|j: int| 0 <= j < i ==> coins@[j].outpoint != output.outpoint,
            decreases coins@.len() - i,
        {
            if coins[i].outpoint == output.outpoint {
                proof {
                    let w = self@.wallet;
                    assert(0 <= i < w.utxos.len() && w.utxos[i as int].outpoint
                        == output.outpoint);
                }
                return true;
            }
            i = i + 1;
        }
        false
    }

    /// Imports a contract: resolves the confirmation height of each witness
    /// through the caller's resolver and hands the contract and the outcomes
    /// to the store's import transition. Whatever the resolver answered, the
    /// store and the result follow that transition for the answers obtained;
    /// a schema-violating contract is always rejected unchanged, and an
    /// already-imported, unchanged contract always succeeds unchanged without
    /// consulting the resolver's verdicts.
    pub fn import_contract<R: ResolveHeight>(&mut self, contract: Contract, resolver: &mut R) -> (r:
        Result<Status, RuntimeError>)
        requires
            old(self).wf(),
        ensures
            final(self).wf(),
            final(self)@.stock_path == old(self)@.stock_path,
            final(self)@.wallet == old(self)@.wallet,
            final(self)@.network == old(self)@.network,
            exists|resolved: Seq<bool>|
                {
                    &&& resolved.len() == contract@.witnesses.len()
                    &&& final(self)@.stock == #[trigger] spec_import(
                        old(self)@.stock,
                        contract@,
                        resolved,
                    ).0
                    &&& import_verdict_matches(
                        spec_import(old(self)@.stock, contract@, resolved).1,
                        r,
                    )
                    &&& final(self)@.dirty == (old(self)@.dirty || import_inserts(
                        old(self)@.stock,
                        contract@,
                        resolved,
                    ))
                },
            !contract@.schema_ok ==> (final(self)@ == old(self)@ && r matches Err(
                RuntimeError::IncompleteContract(_),
            )),
            (contract@.schema_ok && (match find_pos(old(self)@.stock, contract@.id) {
                Some(i) => old(self)@.stock[i].genesis == contract@.genesis,
                None => false,
            })) ==> (final(self)@ == old(self)@ && (r matches Ok(st) && st@.len() == 0)),
    {
        let resolved = resolve_heights(&contract.witnesses, resolver);
        let ghost answers = resolved@;
        let ghost stock_before = self.stock@;
        let ghost contract_model = contract@;
        let count_before = self.stock.contracts_count();
        let r = self.stock.import_with_answers(contract, &resolved);
        let inserted = self.stock.contracts_count() != count_before;
        if inserted {
            self.dirty = true;
        }
        proof {
            crate::stock::lemma_find_pos(stock_before, contract_model.id);
            assert(inserted == import_inserts(stock_before, contract_model, answers));
            assert(self@.stock == spec_import(stock_before, contract_model, answers).0);
            if !inserted {
                assert(self@ =~= RuntimeModel { dirty: old(self)@.dirty, ..old(self)@ });
            }
        }
        r
    }

    /// Validates a transfer against the caller's transaction resolver and the
    /// network's test-net flag. Never mutates the runtime. Returns the
    /// transfer unchanged exactly when validation found no failure for the
    /// resolution outcomes obtained; otherwise reports the failing status as
    /// `InvalidConsignment`. A transfer that does not decode structurally, or
    /// that was built for the other network kind, is always rejected; one
    /// that passes both checks and has no witnesses to resolve is always
    /// returned.
    pub fn validate_transfer<R: ResolveTx>(&mut self, transfer: Transfer, resolver: &mut R) -> (r:
        Result<Transfer, RuntimeError>)
        ensures
            final(self)@ == old(self)@,
            exists|resolved: Seq<bool>|
                {
                    &&& resolved.len() == transfer@.witnesses.len()
                    &&& match r {
                        Ok(t) => t == transfer && #[trigger] judge_failures(
                            transfer@,
                            resolved,
                            old(self)@.network.spec_is_testnet(),
                        ).len() == 0,
                        Err(e) => e matches RuntimeError::InvalidConsignment(st) && st@
                            == judge_failures(
                            transfer@,
                            resolved,
                            old(self)@.network.spec_is_testnet(),
                        ) && st@.len() != 0,
                    }
                },
            !transfer@.structure_ok ==> r is Err,
            transfer@.testnet != old(self)@.network.spec_is_testnet() ==> r is Err,
            (transfer@.structure_ok && transfer@.testnet == old(self)@.network.spec_is_testnet()
                && transfer@.witnesses.len() == 0) ==> (r matches Ok(t) && t == transfer),
    {
        let resolved = resolve_txs(&transfer.witnesses, resolver);
        let status = judge_transfer(&transfer, &resolved, self.network.is_testnet());
        let ghost answers = resolved@;
        if status.is_success() {
            Ok(transfer)
        } else {
            Err(RuntimeError::InvalidConsignment(status))
        }
    }

    /// Accepts a transfer: resolves its witnesses through the caller's
    /// resolver and hands everything to the store's accept transition.
    /// Whenever validation would reject the transfer, acceptance without
    /// `force` leaves the store unchanged and reports a non-success status;
    /// with `force`, any structurally sound transfer is folded even when the
    /// store's own checks would reject it, at the caller's risk.
    pub fn accept_transfer<R: ResolveHeight>(
        &mut self,
        transfer: Transfer,
        resolver: &mut R,
        force: bool,
    ) -> (r: Result<Status, RuntimeError>)
        requires
            old(self).wf(),
        ensures
            final(self).wf(),
            final(self)@.stock_path == old(self)@.stock_path,
            final(self)@.wallet == old(self)@.wallet,
            final(self)@.network == old(self)@.network,
            exists|resolved: Seq<bool>|
                {
                    &&& resolved.len() == transfer@.witnesses.len()
                    &&& final(self)@.stock == #[trigger] spec_accept(
                        old(self)@.stock,
                        transfer@,
                        resolved,
                        force,
                        old(self)@.network.spec_is_testnet(),
                    ).0
                    &&& accept_verdict_matches(
                        spec_accept(
                            old(self)@.stock,
                            transfer@,
                            resolved,
                            force,
                            old(self)@.network.spec_is_testnet(),
                        ).1,
                        r,
                    )
                    &&& final(self)@.dirty == (old(self)@.dirty || accept_folds(
                        old(self)@.stock,
                        transfer@,
                        resolved,
                        force,
                        old(self)@.network.spec_is_testnet(),
                    ))
                },
            !transfer@.structure_ok ==> (final(self)@ == old(self)@ && (r matches Ok(st)
                && st@.len() != 0)),
    {
        let resolved = resolve_heights(&transfer.witnesses, resolver);
        let ghost answers = resolved@;
        let ghost stock_before = self.stock@;
        let ghost transfer_model = transfer@;
        let structure_ok = transfer.structure_ok;
        let testnet = self.network.is_testnet();
        let r = self.stock.accept_with_answers(transfer, &resolved, force, testnet);
        let folded = structure_ok && (force || match &r {
            Ok(st) => st.is_success(),
            Err(_) => false,
        });
        if folded {
            self.dirty = true;
        }
        proof {
            assert(folded == accept_folds(
                stock_before,
                transfer_model,
                answers,
                force,
                testnet,
            ));
            if !folded {
                assert(self@.stock == stock_before);
                assert(self@ =~= RuntimeModel { dirty: old(self)@.dirty, ..old(self)@ });
            }
            if !transfer_model.structure_ok {
                assert(self@ =~= old(self)@);
            }
        }
        r
    }

    /// The path where the store is persisted.
    pub fn stock_path(&self) -> (r: &String)
        ensures
            r@ == self@.stock_path,
    {
        &self.stock_path
    }

    /// The contract-state store, for read access.
    pub fn stock(&self) -> (r: &Stock)
        ensures
            r@ == self@.stock,
    {
        &self.stock
    }

    /// The wallet, for read access.
    pub fn wallet(&self) -> (r: &Wallet)
        ensures
            r@ == self@.wallet,
    {
        &self.wallet
    }

    /// The network this runtime operates against.
    pub fn network(&self) -> (r: Network)
        ensures
            r == self@.network,
    {
        self.network
    }

    /// Whether the in-memory store differs from what was loaded or last
    /// saved, so that teardown must flush it.
    pub fn is_dirty(&self) -> (r: bool)
        ensures
            r == self@.dirty,
    {
        self.dirty
    }
}

/// Resolves the confirmation height of each witness, recording which resolved.
fn resolve_heights<R: ResolveHeight>(witnesses: &Vec<u64>, resolver: &mut R) -> (r: Vec<bool>)
    ensures
        r@.len() == witnesses@.len(),
{
    let mut out: Vec<bool> = Vec::new();
    let mut i: usize = 0;
    while i < witnesses.len()
        invariant
            0 <= i <= witnesses@.len(),
            out@.len() == i,
        decreases witnesses@.len() - i,
    {
        let ok = match resolver.resolve_height(witnesses[i]) {
            Ok(_) => true,
            Err(_) => false,
        };
        out.push(ok);
        i = i + 1;
    }
    out
}

/// Resolves each witness transaction, recording which came back as the
/// transaction that was asked for.
fn resolve_txs<R: ResolveTx>(witnesses: &Vec<u64>, resolver: &mut R) -> (r: Vec<bool>)
    ensures
        r@.len() == witnesses@.len(),
{
    let mut out: Vec<bool> = Vec::new();
    let mut i: usize = 0;
    while i < witnesses.len()
        invariant
            0 <= i <= witnesses@.len(),
            out@.len() == i,
        decreases witnesses@.len() - i,
    {
        let ok = match resolver.resolve_tx(witnesses[i]) {
            Ok(tx) => tx.txid == witnesses[i],
            Err(_) => false,
        };
        out.push(ok);
        i = i + 1;
    }
    out
}

} // verus!
