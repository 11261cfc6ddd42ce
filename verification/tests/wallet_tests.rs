//! Wallet generation: mnemonic derivation, derivation paths, decimal
//! formatting, and addresses.

use e2e_test_utils::wallet::{u64_to_decimal, WalletGenerator};

/// First account of the well-known test mnemonic.
const FIRST_TEST_ADDRESS: &str = "0xf39Fd6e51aad88F6F4ce6aB8827279cffFb92266";
/// Second account of the well-known test mnemonic.
const SECOND_TEST_ADDRESS: &str = "0x70997970C51812dc3A010C7d01b50e0d17dc79C8";

#[test]
fn u64_to_decimal_formats_digits() {
    assert_eq!(u64_to_decimal(0).as_str(), "0");
    assert_eq!(u64_to_decimal(7).as_str(), "7");
    assert_eq!(u64_to_decimal(10).as_str(), "10");
    assert_eq!(u64_to_decimal(12345).as_str(), "12345");
    assert_eq!(u64_to_decimal(u64::MAX).as_str(), "18446744073709551615");
}

#[test]
fn get_derivation_path_appends_index() {
    let generator = WalletGenerator::new();
    assert_eq!(generator.get_derivation_path(0).as_str(), "m/44'/60'/0'/0/0");
    assert_eq!(generator.get_derivation_path(1).as_str(), "m/44'/60'/0'/0/1");
    assert_eq!(generator.get_derivation_path(42).as_str(), "m/44'/60'/0'/0/42");
}

#[test]
fn derivation_path_setter_ensures_separator() {
    let generator = WalletGenerator::new().derivation_path(String::from("m/44'/60'/1'/0"));
    assert_eq!(generator.derivation_path.as_str(), "m/44'/60'/1'/0/");
    let generator = WalletGenerator::new().derivation_path(String::from("m/44'/60'/1'/0/"));
    assert_eq!(generator.derivation_path.as_str(), "m/44'/60'/1'/0/");
}

#[test]
fn generator_defaults_and_setters() {
    let generator = WalletGenerator::new();
    assert_eq!(generator.chain_id, 1);
    assert_eq!(
        generator.phrase.as_str(),
        "test test test test test test test test test test test junk"
    );
    assert_eq!(generator.derivation_path.as_str(), "m/44'/60'/0'/0/");
    let generator = generator.chain_id(10).phrase(String::from("other phrase"));
    assert_eq!(generator.chain_id, 10);
    assert_eq!(generator.phrase.as_str(), "other phrase");
}

#[test]
fn gen_derives_the_well_known_first_account() {
    let wallet = WalletGenerator::new().gen().expect("derivation should succeed");
    assert_eq!(wallet.chain_id, 1);
    assert_eq!(wallet.key.len(), 32);
    let address = wallet.address().expect("address should be derivable");
    assert_eq!(address.as_str(), FIRST_TEST_ADDRESS);
}

#[test]
fn gen_many_derives_distinct_sequential_accounts() {
    let wallets = WalletGenerator::new().gen_many(3).expect("derivation should succeed");
    assert_eq!(wallets.len(), 3);
    let first = wallets[0].address().unwrap();
    let second = wallets[1].address().unwrap();
    let third = wallets[2].address().unwrap();
    assert_eq!(first.as_str(), FIRST_TEST_ADDRESS);
    assert_eq!(second.as_str(), SECOND_TEST_ADDRESS);
    assert_ne!(second, third);
    assert_ne!(first, third);
}

#[test]
fn get_derivation_path_follows_the_configured_prefix() {
    let generator = WalletGenerator::new().derivation_path(String::from("m/44'/60'/1'/0"));
    assert_eq!(generator.get_derivation_path(0).as_str(), "m/44'/60'/1'/0/0");
    assert_eq!(generator.get_derivation_path(7).as_str(), "m/44'/60'/1'/0/7");
}

#[test]
fn gen_derives_under_the_configured_path() {
    // A different account prefix yields a different wallet...
    let other = WalletGenerator::new()
        .derivation_path(String::from("m/44'/60'/1'/0"))
        .gen()
        .expect("derivation should succeed");
    assert_ne!(other.address().unwrap().as_str(), FIRST_TEST_ADDRESS);

    // ...while spelling out the standard prefix yields the same one.
    let standard = WalletGenerator::new()
        .derivation_path(String::from("m/44'/60'/0'/0"))
        .gen()
        .expect("derivation should succeed");
    assert_eq!(standard.address().unwrap().as_str(), FIRST_TEST_ADDRESS);
}

#[test]
fn gen_rejects_an_invalid_phrase() {
    let wallet = WalletGenerator::new().phrase(String::from("definitely not a mnemonic")).gen();
    assert!(wallet.is_none());
}
