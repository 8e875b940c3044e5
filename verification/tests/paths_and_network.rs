use rgb_runtime::chain::{AddressNetwork, Network};
use rgb_runtime::paths::{data_dir_path, stock_file_path, wallet_file_path};
use rgb_runtime::runtime::Runtime;
use rgb_runtime::stock::Stock;
use rgb_runtime::wallet::Wallet;

#[test]
fn directory_derivation_testnet() {
    assert_eq!(data_dir_path("/tmp/x", Network::Testnet3), "/tmp/x/testnet");
    assert_eq!(
        stock_file_path("/tmp/x", Network::Testnet3),
        "/tmp/x/testnet/stock.dat"
    );
    assert_eq!(
        wallet_file_path("/tmp/x", Network::Testnet3, "w1"),
        "/tmp/x/testnet/w1"
    );
}

#[test]
fn initialized_runtime_uses_derived_stock_path() {
    let wallet = Wallet::new(String::from("wpkh(test)"));
    let rt = Runtime::load_attach_or_init("/tmp/x", Network::Testnet3, wallet, None, Stock::new())
        .expect("load-or-init never fails");
    assert_eq!(rt.stock_path(), "/tmp/x/testnet/stock.dat");
    rt.unload();
}

#[test]
fn network_text_labels() {
    assert_eq!(Network::Mainnet.text(), "bitcoin");
    assert_eq!(Network::Testnet3.text(), "testnet");
    assert_eq!(Network::Testnet4.text(), "testnet4");
    assert_eq!(Network::Signet.text(), "signet");
    assert_eq!(Network::Regtest.text(), "regtest");
}

#[test]
fn testnet_flag() {
    assert!(!Network::Mainnet.is_testnet());
    assert!(Network::Testnet3.is_testnet());
    assert!(Network::Testnet4.is_testnet());
    assert!(Network::Signet.is_testnet());
    assert!(Network::Regtest.is_testnet());
}

#[test]
fn address_network_projection() {
    let cases = [
        (Network::Mainnet, AddressNetwork::Mainnet),
        (Network::Testnet3, AddressNetwork::Testnet),
        (Network::Testnet4, AddressNetwork::Testnet),
        (Network::Signet, AddressNetwork::Testnet),
        (Network::Regtest, AddressNetwork::Regtest),
    ];
    for (network, expected) in cases {
        let wallet = Wallet::new(String::from("d"));
        let rt = Runtime::load_attach_or_init("/tmp/x", network, wallet, None, Stock::new())
            .expect("load-or-init never fails");
        assert_eq!(rt.address_network(), expected);
        rt.unload();
    }
}
