use rgb_runtime::chain::{Chain, Network, Outpoint, XOutpoint};
use rgb_runtime::containers::{Contract, Transfer};
use rgb_runtime::errors::{DecodeFailure, InventoryFailure, RuntimeError};
use rgb_runtime::runtime::Runtime;
use rgb_runtime::stock::{ContractEntry, Stock};
use rgb_runtime::validation::{Failure, ResolveHeight, ResolveTx, ResolvedTx, Validity};
use rgb_runtime::wallet::{Utxo, Wallet};

struct AllHeights;

impl ResolveHeight for AllHeights {
    fn resolve_height(&mut self, _witness: u64) -> Result<u32, String> {
        Ok(840_000)
    }
}

struct NoHeights;

impl ResolveHeight for NoHeights {
    fn resolve_height(&mut self, _witness: u64) -> Result<u32, String> {
        Err(String::from("indexer unreachable"))
    }
}

struct AllTxs;

impl ResolveTx for AllTxs {
    fn resolve_tx(&mut self, txid: u64) -> Result<ResolvedTx, String> {
        Ok(ResolvedTx { txid })
    }
}

struct NoTxs;

impl ResolveTx for NoTxs {
    fn resolve_tx(&mut self, _txid: u64) -> Result<ResolvedTx, String> {
        Err(String::from("transaction not found"))
    }
}

fn fresh_runtime(network: Network) -> Runtime {
    Runtime::load_attach_or_init(
        "/tmp/x",
        network,
        Wallet::new(String::from("d")),
        None,
        Stock::new(),
    )
    .expect("load-or-init never fails")
}

fn sample_contract() -> Contract {
    Contract {
        id: 7,
        schema_ok: true,
        genesis: vec![1, 2, 3],
        witnesses: vec![42, 43],
    }
}

fn sample_transfer() -> Transfer {
    Transfer {
        contract_id: 7,
        structure_ok: true,
        testnet: false,
        genesis: vec![1, 2, 3],
        witnesses: vec![42],
        ops: vec![100, 101, 101, 102],
    }
}

#[test]
fn import_fresh_contract_succeeds() {
    let mut rt = fresh_runtime(Network::Mainnet);
    let status = rt
        .import_contract(sample_contract(), &mut AllHeights {})
        .expect("import succeeds");
    assert!(status.is_success());
    assert_eq!(status.validity(), Validity::Valid);
    assert!(rt.stock().has_contract(7));
    assert_eq!(rt.stock().contract_ops(7), Some(&vec![]));
    assert!(rt.is_dirty());
    rt.unload();
}

#[test]
fn import_is_idempotent() {
    let mut rt = fresh_runtime(Network::Mainnet);
    let first = rt
        .import_contract(sample_contract(), &mut AllHeights {})
        .expect("first import succeeds");
    assert!(first.is_success());
    // The second import succeeds even through a resolver that answers
    // nothing: the unchanged contract is already in the store.
    let second = rt
        .import_contract(sample_contract(), &mut NoHeights {})
        .expect("re-import succeeds");
    assert!(second.is_success());
    assert_eq!(rt.stock().contracts_count(), 1);
    rt.unload();
}

#[test]
fn import_rejects_schema_violation() {
    let mut rt = fresh_runtime(Network::Mainnet);
    let mut contract = sample_contract();
    contract.schema_ok = false;
    match rt.import_contract(contract, &mut AllHeights {}) {
        Err(RuntimeError::IncompleteContract(status)) => {
            assert_eq!(status.failures, vec![Failure::SchemaRequirements]);
        }
        other => panic!("expected an incomplete-contract error, got {:?}", other),
    }
    assert_eq!(rt.stock().contracts_count(), 0);
    assert!(!rt.is_dirty());
    rt.unload();
}

#[test]
fn import_reports_unresolved_witnesses() {
    let mut rt = fresh_runtime(Network::Mainnet);
    let status = rt
        .import_contract(sample_contract(), &mut NoHeights {})
        .expect("an unresolved witness is a status, not an error");
    assert!(!status.is_success());
    assert_eq!(
        status.failures,
        vec![
            Failure::WitnessUnresolved(42),
            Failure::WitnessUnresolved(43)
        ]
    );
    assert!(!rt.stock().has_contract(7));
    assert!(!rt.is_dirty());
    rt.unload();
}

#[test]
fn import_rejects_conflicting_genesis() {
    let mut rt = fresh_runtime(Network::Mainnet);
    rt.import_contract(sample_contract(), &mut AllHeights {})
        .expect("first import succeeds");
    let mut conflicting = sample_contract();
    conflicting.genesis = vec![9, 9];
    match rt.import_contract(conflicting, &mut AllHeights {}) {
        Err(RuntimeError::Inventory(InventoryFailure::ContractMismatch(7))) => {}
        other => panic!("expected a contract mismatch, got {:?}", other),
    }
    assert_eq!(rt.stock().contract_genesis(7), Some(&vec![1, 2, 3]));
    rt.unload();
}

#[test]
fn validate_returns_transfer_unchanged() {
    let mut rt = fresh_runtime(Network::Mainnet);
    let transfer = sample_transfer();
    let validated = rt
        .validate_transfer(transfer.clone(), &mut AllTxs {})
        .expect("a sound transfer validates");
    assert_eq!(validated, transfer);
    assert!(!rt.is_dirty());
    rt.unload();
}

#[test]
fn validate_rejects_network_mismatch() {
    let mut rt = fresh_runtime(Network::Testnet3);
    match rt.validate_transfer(sample_transfer(), &mut AllTxs {}) {
        Err(RuntimeError::InvalidConsignment(status)) => {
            assert_eq!(status.failures, vec![Failure::NetworkMismatch]);
        }
        other => panic!("expected invalid-consignment, got {:?}", other.map(|_| ())),
    }
    rt.unload();
}

#[test]
fn validate_rejects_structural_failure() {
    let mut rt = fresh_runtime(Network::Mainnet);
    let mut transfer = sample_transfer();
    transfer.structure_ok = false;
    match rt.validate_transfer(transfer, &mut AllTxs {}) {
        Err(RuntimeError::InvalidConsignment(status)) => {
            assert_eq!(status.failures, vec![Failure::Structure]);
        }
        other => panic!("expected invalid-consignment, got {:?}", other.map(|_| ())),
    }
    rt.unload();
}

#[test]
fn validate_reports_unresolved_transactions() {
    let mut rt = fresh_runtime(Network::Mainnet);
    match rt.validate_transfer(sample_transfer(), &mut NoTxs {}) {
        Err(RuntimeError::InvalidConsignment(status)) => {
            assert_eq!(status.failures, vec![Failure::WitnessUnresolved(42)]);
        }
        other => panic!("expected invalid-consignment, got {:?}", other.map(|_| ())),
    }
    rt.unload();
}

#[test]
fn validate_owes_success_without_witnesses() {
    // Nothing is left to a resolver: a sound transfer with no witnesses is
    // returned even by a resolver that answers nothing.
    let mut rt = fresh_runtime(Network::Mainnet);
    let mut transfer = sample_transfer();
    transfer.witnesses = vec![];
    let validated = rt
        .validate_transfer(transfer.clone(), &mut NoTxs {})
        .expect("no check is left to the resolver");
    assert_eq!(validated, transfer);
    rt.unload();
}

#[test]
fn accept_rejects_what_validate_rejects_and_force_overrides() {
    // On testnet the mainnet-built transfer fails validation.
    let mut rt = fresh_runtime(Network::Testnet3);
    let transfer = sample_transfer();
    assert!(rt
        .validate_transfer(transfer.clone(), &mut AllTxs {})
        .is_err());
    let status = rt
        .accept_transfer(transfer.clone(), &mut AllHeights {}, false)
        .expect("rejection is a status, not an error");
    assert!(!status.is_success());
    assert!(!rt.stock().has_contract(7));
    assert!(!rt.is_dirty());
    // Forcing acceptance folds the very transfer that was rejected.
    let forced = rt
        .accept_transfer(transfer, &mut AllHeights {}, true)
        .expect("forced acceptance returns the status");
    assert!(!forced.is_success());
    assert!(rt.stock().has_contract(7));
    assert_eq!(rt.stock().contract_ops(7), Some(&vec![100, 101, 102]));
    assert!(rt.is_dirty());
    rt.unload();
}

#[test]
fn force_cannot_override_structural_failure() {
    let mut rt = fresh_runtime(Network::Mainnet);
    let mut transfer = sample_transfer();
    transfer.structure_ok = false;
    let status = rt
        .accept_transfer(transfer, &mut AllHeights {}, true)
        .expect("rejection is a status, not an error");
    assert!(!status.is_success());
    assert!(!rt.stock().has_contract(7));
    assert!(!rt.is_dirty());
    rt.unload();
}

#[test]
fn accept_folds_operations_without_duplicates() {
    let mut rt = fresh_runtime(Network::Mainnet);
    rt.import_contract(sample_contract(), &mut AllHeights {})
        .expect("import succeeds");
    let status = rt
        .accept_transfer(sample_transfer(), &mut AllHeights {}, false)
        .expect("a sound transfer is accepted");
    assert!(status.is_success());
    assert_eq!(rt.stock().contract_ops(7), Some(&vec![100, 101, 102]));
    // Accepting the same transfer again adds nothing.
    let again = rt
        .accept_transfer(sample_transfer(), &mut AllHeights {}, false)
        .expect("a sound transfer is accepted");
    assert!(again.is_success());
    assert_eq!(rt.stock().contract_ops(7), Some(&vec![100, 101, 102]));
    assert_eq!(rt.stock().contracts_count(), 1);
    rt.unload();
}

#[test]
fn accept_rejects_conflicting_genesis_unless_forced() {
    let mut rt = fresh_runtime(Network::Mainnet);
    rt.import_contract(sample_contract(), &mut AllHeights {})
        .expect("import succeeds");
    let mut transfer = sample_transfer();
    transfer.genesis = vec![8, 8];
    match rt.accept_transfer(transfer.clone(), &mut AllHeights {}, false) {
        Err(RuntimeError::Inventory(InventoryFailure::ContractMismatch(7))) => {}
        other => panic!("expected a contract mismatch, got {:?}", other),
    }
    assert_eq!(rt.stock().contract_ops(7), Some(&vec![]));
    let forced = rt
        .accept_transfer(transfer, &mut AllHeights {}, true)
        .expect("forced acceptance returns the status");
    assert!(forced.is_success());
    // The stored genesis is kept; only the operations are folded.
    assert_eq!(rt.stock().contract_genesis(7), Some(&vec![1, 2, 3]));
    assert_eq!(rt.stock().contract_ops(7), Some(&vec![100, 101, 102]));
    rt.unload();
}

#[test]
fn ownership_filter_tracks_wallet_utxo_set() {
    let mine = Outpoint { txid: 500, vout: 1 };
    let other = Outpoint { txid: 501, vout: 0 };
    let wallet = Wallet {
        descriptor: String::from("d"),
        utxos: vec![Utxo {
            outpoint: mine,
            value: 5_000,
        }],
    };
    let mut rt = Runtime::load_attach_or_init(
        "/tmp/x",
        Network::Mainnet,
        wallet,
        None,
        Stock::new(),
    )
    .expect("load-or-init never fails");
    assert!(rt.include_output(XOutpoint::from(mine)));
    assert!(!rt.include_output(XOutpoint::from(other)));
    // An output on a side chain is never ours.
    assert!(!rt.include_output(XOutpoint {
        chain: Chain::Liquid,
        outpoint: mine,
    }));
    // Attaching a new wallet swaps the set the filter answers for.
    let swapped = Wallet {
        descriptor: String::from("d2"),
        utxos: vec![Utxo {
            outpoint: other,
            value: 1_000,
        }],
    };
    rt.attach(swapped);
    assert!(!rt.include_output(XOutpoint::from(mine)));
    assert!(rt.include_output(XOutpoint::from(other)));
    assert!(!rt.is_dirty());
    rt.unload();
}

#[test]
fn error_kinds_have_names() {
    assert_eq!(
        RuntimeError::Deserialize(DecodeFailure::Truncated).kind_name(),
        "deserialize"
    );
    assert_eq!(RuntimeError::Custom(String::from("x")).kind_name(), "custom");
}

#[test]
fn decode_failure_converts_into_the_taxonomy() {
    let e = RuntimeError::from(DecodeFailure::Truncated);
    assert_eq!(e, RuntimeError::Deserialize(DecodeFailure::Truncated));
}
