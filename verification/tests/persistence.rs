use rgb_runtime::chain::Network;
use rgb_runtime::codec::{decode_stock, encode_stock, STORE_VERSION};
use rgb_runtime::errors::{DecodeFailure, RuntimeError};
use rgb_runtime::runtime::Runtime;
use rgb_runtime::stock::{ContractEntry, Stock};
use rgb_runtime::validation::ResolveHeight;
use rgb_runtime::wallet::{Wallet, WalletFailure};

struct AllHeights;

impl ResolveHeight for AllHeights {
    fn resolve_height(&mut self, _witness: u64) -> Result<u32, String> {
        Ok(840_000)
    }
}

fn sample_stock() -> Stock {
    let entries = vec![
        ContractEntry {
            id: 7,
            genesis: vec![1, 2, 3],
            ops: vec![10, 11],
        },
        ContractEntry {
            id: 9,
            genesis: vec![],
            ops: vec![],
        },
    ];
    Stock::from_entries(entries).expect("identifiers are distinct")
}

#[test]
fn codec_round_trip() {
    let stock = sample_stock();
    let bytes = encode_stock(&stock);
    let back = decode_stock(&bytes).expect("an encoded store decodes");
    assert_eq!(back.contracts_count(), 2);
    assert_eq!(back.contract_genesis(7), Some(&vec![1, 2, 3]));
    assert_eq!(back.contract_ops(7), Some(&vec![10, 11]));
    assert_eq!(back.contract_genesis(9), Some(&vec![]));
    assert_eq!(encode_stock(&back), bytes);
}

#[test]
fn codec_round_trip_empty_store() {
    let bytes = encode_stock(&Stock::new());
    let back = decode_stock(&bytes).expect("an encoded store decodes");
    assert_eq!(back.contracts_count(), 0);
}

#[test]
fn decode_rejects_truncation() {
    assert_eq!(decode_stock(&vec![]), Err(DecodeFailure::Truncated));
    let mut bytes = encode_stock(&sample_stock());
    bytes.pop();
    assert_eq!(decode_stock(&bytes), Err(DecodeFailure::Truncated));
}

#[test]
fn decode_rejects_bad_magic() {
    let mut bytes = encode_stock(&sample_stock());
    bytes[0] = 0x00;
    assert_eq!(decode_stock(&bytes), Err(DecodeFailure::BadMagic));
}

#[test]
fn decode_rejects_unsupported_version() {
    let mut bytes = encode_stock(&sample_stock());
    bytes[4] = STORE_VERSION + 1;
    assert_eq!(
        decode_stock(&bytes),
        Err(DecodeFailure::UnsupportedVersion(STORE_VERSION + 1))
    );
}

#[test]
fn decode_rejects_trailing_bytes() {
    let mut bytes = encode_stock(&sample_stock());
    bytes.push(0);
    assert_eq!(decode_stock(&bytes), Err(DecodeFailure::TrailingBytes));
}

#[test]
fn duplicate_contract_records_are_refused() {
    let twice = vec![
        ContractEntry {
            id: 7,
            genesis: vec![1],
            ops: vec![],
        },
        ContractEntry {
            id: 7,
            genesis: vec![2],
            ops: vec![],
        },
    ];
    assert!(Stock::from_entries(twice).is_none());
}

#[test]
fn strict_load_fails_on_unreadable_store() {
    let wallet = Wallet::new(String::from("d"));
    let r = Runtime::load("/tmp/x", "w1", Network::Regtest, Ok(wallet), None);
    match r {
        Err(RuntimeError::Deserialize(DecodeFailure::UnreadableFile)) => {}
        other => panic!("expected an unreadable-file error, got {:?}", other.map(|_| ())),
    }
}

#[test]
fn strict_load_fails_on_corrupt_store() {
    let wallet = Wallet::new(String::from("d"));
    let r = Runtime::load(
        "/tmp/x",
        "w1",
        Network::Regtest,
        Ok(wallet),
        Some(vec![9, 9, 9, 9, 9, 9]),
    );
    assert!(matches!(r, Err(RuntimeError::Deserialize(_))));
}

#[test]
fn absent_wallet_is_reported_under_its_name() {
    let r = Runtime::load(
        "/tmp/x",
        "w1",
        Network::Regtest,
        Err(WalletFailure::Absent),
        None,
    );
    match r {
        Err(RuntimeError::WalletUnknown(name)) => assert_eq!(name, "w1"),
        other => panic!("expected wallet-unknown, got {:?}", other.map(|_| ())),
    }
}

#[test]
fn wallet_failure_is_reported_as_wallet_runtime() {
    let r = Runtime::load(
        "/tmp/x",
        "w1",
        Network::Regtest,
        Err(WalletFailure::Io),
        None,
    );
    assert!(matches!(
        r,
        Err(RuntimeError::WalletRuntime(WalletFailure::Io))
    ));
}

#[test]
fn load_or_init_falls_back_on_corrupt_store() {
    let wallet = Wallet::new(String::from("loaded"));
    let rt = Runtime::load_or_init(
        "/tmp/x",
        Network::Regtest,
        Ok(wallet),
        Wallet::new(String::from("fresh")),
        Some(vec![0xde, 0xad, 0xbe, 0xef]),
        sample_stock(),
    )
    .expect("load-or-init never fails");
    assert_eq!(rt.wallet().descriptor, "loaded");
    assert_eq!(rt.stock().contracts_count(), 2);
    assert!(!rt.is_dirty());
    rt.unload();
}

#[test]
fn load_or_init_falls_back_on_absent_wallet() {
    let rt = Runtime::load_or_init(
        "/tmp/x",
        Network::Regtest,
        Err(WalletFailure::Absent),
        Wallet::new(String::from("fresh")),
        None,
        Stock::new(),
    )
    .expect("load-or-init never fails");
    assert_eq!(rt.wallet().descriptor, "fresh");
    assert_eq!(rt.stock().contracts_count(), 0);
    rt.unload();
}

#[test]
fn strict_load_happy_path() {
    let on_disk = encode_stock(&sample_stock());
    let wallet = Wallet::new(String::from("d"));
    let rt = Runtime::load("/tmp/x", "w1", Network::Mainnet, Ok(wallet), Some(on_disk))
        .expect("a readable store and wallet load");
    assert_eq!(rt.network(), Network::Mainnet);
    assert_eq!(rt.stock_path(), "/tmp/x/bitcoin/stock.dat");
    assert_eq!(rt.stock().contracts_count(), 2);
    assert!(!rt.is_dirty());
    rt.unload();
}

#[test]
fn clean_disposal_writes_nothing() {
    let stock = sample_stock();
    let on_disk = encode_stock(&stock);
    let wallet = Wallet::new(String::from("d"));
    let rt = Runtime::load_attach(
        "/tmp/x",
        Network::Regtest,
        wallet,
        Some(on_disk.clone()),
    )
    .expect("a valid blob loads");
    assert!(!rt.is_dirty());
    assert!(rt.close().is_none());
    let reloaded = decode_stock(&on_disk).expect("the untouched blob still decodes");
    assert_eq!(encode_stock(&reloaded), on_disk);
}

#[test]
fn dirty_disposal_emits_store_at_stock_path() {
    let wallet = Wallet::new(String::from("d"));
    let mut rt = Runtime::load_attach_or_init(
        "/tmp/x",
        Network::Regtest,
        wallet,
        None,
        Stock::new(),
    )
    .expect("load-or-init never fails");
    let contract = rgb_runtime::containers::Contract {
        id: 7,
        schema_ok: true,
        genesis: vec![1, 2, 3],
        witnesses: vec![42],
    };
    let status = rt
        .import_contract(contract, &mut AllHeights {})
        .expect("import succeeds");
    assert!(status.is_success());
    assert!(rt.is_dirty());
    let (path, bytes) = rt.close().expect("a dirty runtime flushes");
    assert_eq!(path, "/tmp/x/regtest/stock.dat");
    let reloaded = decode_stock(&bytes).expect("the flushed blob decodes");
    assert_eq!(reloaded.contract_genesis(7), Some(&vec![1, 2, 3]));
}

#[test]
fn store_then_reload_is_lossless() {
    let wallet = Wallet::new(String::from("d"));
    let mut rt = Runtime::load_attach_or_init(
        "/tmp/x",
        Network::Regtest,
        wallet,
        None,
        sample_stock(),
    )
    .expect("load-or-init never fails");
    let (path, bytes) = rt.store();
    assert_eq!(path, "/tmp/x/regtest/stock.dat");
    assert!(!rt.is_dirty());
    rt.unload();
    let rt2 = Runtime::load_attach(
        "/tmp/x",
        Network::Regtest,
        Wallet::new(String::from("d")),
        Some(bytes),
    )
    .expect("the stored blob loads");
    assert_eq!(rt2.stock().contracts_count(), 2);
    assert_eq!(rt2.stock().contract_ops(7), Some(&vec![10, 11]));
    assert!(rt2.close().is_none());
}
