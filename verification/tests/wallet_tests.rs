//! Tests of the wallet lifecycle state machine.

use solana_wallet::wallet::{Balance, SolanaWallet, WalletStore};
use solana_wallet::WalletError;

#[test]
fn generate_lock_unlock_scenario() {
    let mut wallet = SolanaWallet::new();
    let mut store = WalletStore::new();
    assert!(!wallet.has_wallet(&store));

    let created = wallet.generate_new("p@ss1", &mut store);
    assert!(wallet.has_wallet(&store));
    assert!(wallet.is_unlocked());
    assert!(!created.address.is_empty());
    assert_eq!(created.mnemonic.split_whitespace().count(), 12);

    wallet.lock();
    assert!(!wallet.is_unlocked());

    let unlocked = wallet.unlock("p@ss1", &store).expect("correct password");
    assert_eq!(unlocked, created.address);
    assert!(wallet.is_unlocked());

    wallet.lock();
    let wrong = wallet.unlock("wrong", &store);
    assert_eq!(wrong, Err(WalletError::Authentication));
    assert!(!wallet.is_unlocked());
}

#[test]
fn locked_operations_fail_with_state_error() {
    let mut wallet = SolanaWallet::new();
    let mut store = WalletStore::new();
    wallet.generate_new("pw", &mut store);
    wallet.lock();

    assert_eq!(wallet.get_address(), Err(WalletError::State));
    assert_eq!(wallet.export_private_key(), Err(WalletError::State));
    assert_eq!(
        wallet.get_balance(Some(1_000_000_000)),
        Err(WalletError::State)
    );

    wallet.unlock("pw", &store).expect("correct password");
    assert!(wallet.get_address().is_ok());
    assert!(wallet.export_private_key().is_ok());
    assert!(wallet.get_balance(Some(1_000_000_000)).is_ok());
}

#[test]
fn export_import_yields_identical_address() {
    let mut wallet = SolanaWallet::new();
    let mut store = WalletStore::new();
    let created = wallet.generate_new("first", &mut store);
    let exported = wallet.export_private_key().expect("unlocked");

    let mut wallet2 = SolanaWallet::new();
    let mut store2 = WalletStore::new();
    let imported = wallet2
        .import_from_private_key(&exported, "second", &mut store2)
        .expect("a freshly exported key imports");
    assert_eq!(imported, created.address);
    assert_eq!(wallet2.get_address().unwrap(), created.address);
}

#[test]
fn mnemonic_reimport_yields_identical_address() {
    let mut wallet = SolanaWallet::new();
    let mut store = WalletStore::new();
    let created = wallet.generate_new("pw", &mut store);

    let mut wallet2 = SolanaWallet::new();
    let mut store2 = WalletStore::new();
    let imported = wallet2
        .import_from_mnemonic(&created.mnemonic, "other-pw", &mut store2)
        .expect("a freshly generated phrase imports");
    assert_eq!(imported, created.address);
}

#[test]
fn import_known_mnemonic_matches_direct_derivation() {
    // The well-known twelve-word phrase, empty passphrase.
    let phrase = "abandon abandon abandon abandon abandon abandon abandon abandon abandon abandon abandon about";
    let mut wallet = SolanaWallet::new();
    let mut store = WalletStore::new();
    let address = wallet
        .import_from_mnemonic(phrase, "pw", &mut store)
        .expect("valid phrase");

    // Derive the same keypair directly through the outside crates.
    let mnemonic = bip39::Mnemonic::parse_in(bip39::Language::English, phrase).unwrap();
    let seed = mnemonic.to_seed("");
    let keypair = solana_sdk::signer::keypair::keypair_from_seed(&seed[..32]).unwrap();
    let expected = solana_sdk::signer::Signer::pubkey(&keypair).to_string();
    assert_eq!(address, expected);

    let exported = wallet.export_private_key().unwrap();
    let direct = bs58::encode(keypair.to_bytes()).into_string();
    assert_eq!(exported, direct);
}

#[test]
fn invalid_mnemonic_rejected_before_any_write() {
    let mut wallet = SolanaWallet::new();
    let mut store = WalletStore::new();
    let r = wallet.import_from_mnemonic("definitely not a phrase", "pw", &mut store);
    assert_eq!(r, Err(WalletError::Validation));
    assert!(!wallet.has_wallet(&store));
    assert!(!wallet.is_unlocked());
}

#[test]
fn bad_checksum_mnemonic_rejected() {
    // Twelve valid words whose checksum does not verify.
    let phrase = "abandon abandon abandon abandon abandon abandon abandon abandon abandon abandon abandon abandon";
    let mut wallet = SolanaWallet::new();
    let mut store = WalletStore::new();
    let r = wallet.import_from_mnemonic(phrase, "pw", &mut store);
    assert_eq!(r, Err(WalletError::Validation));
}

#[test]
fn private_key_of_wrong_length_rejected_before_any_write() {
    let mut wallet = SolanaWallet::new();
    let mut store = WalletStore::new();
    let short = bs58::encode([1u8; 10]).into_string();
    let r = wallet.import_from_private_key(&short, "pw", &mut store);
    assert_eq!(r, Err(WalletError::Validation));
    assert!(!wallet.has_wallet(&store));
    assert!(!wallet.is_unlocked());
}

#[test]
fn private_key_with_mismatched_public_half_rejected() {
    let mut wallet = SolanaWallet::new();
    let mut store = WalletStore::new();
    let inconsistent = bs58::encode([0u8; 64]).into_string();
    let r = wallet.import_from_private_key(&inconsistent, "pw", &mut store);
    assert_eq!(r, Err(WalletError::Validation));
}

#[test]
fn private_key_that_is_not_base58_rejected() {
    let mut wallet = SolanaWallet::new();
    let mut store = WalletStore::new();
    let r = wallet.import_from_private_key("0OIl not base58", "pw", &mut store);
    assert_eq!(r, Err(WalletError::Validation));
}

#[test]
fn unlock_without_wallet_fails_with_state_error() {
    let mut wallet = SolanaWallet::new();
    let store = WalletStore::new();
    assert_eq!(wallet.unlock("pw", &store), Err(WalletError::State));
}

#[test]
fn unlock_failure_keeps_previous_session() {
    let mut wallet = SolanaWallet::new();
    let mut store = WalletStore::new();
    let created = wallet.generate_new("pw", &mut store);
    // Still unlocked from generation; a failed unlock leaves it so.
    let r = wallet.unlock("wrong", &store);
    assert_eq!(r, Err(WalletError::Authentication));
    assert!(wallet.is_unlocked());
    assert_eq!(wallet.get_address().unwrap(), created.address);
}

#[test]
fn generate_overwrites_previous_record() {
    let mut wallet = SolanaWallet::new();
    let mut store = WalletStore::new();
    let first = wallet.generate_new("pw", &mut store);
    let second = wallet.generate_new("pw", &mut store);
    assert_ne!(first.address, second.address);
    wallet.lock();
    let unlocked = wallet.unlock("pw", &store).unwrap();
    assert_eq!(unlocked, second.address);
}

#[test]
fn balance_conversion_exact() {
    let b = Balance {
        lamports: 2_500_000_001,
    };
    assert_eq!(b.sol_whole(), 2);
    assert_eq!(b.sol_fraction(), 500_000_001);

    let zero = Balance { lamports: 0 };
    assert_eq!(zero.sol_whole(), 0);
    assert_eq!(zero.sol_fraction(), 0);

    let exact = Balance {
        lamports: 1_000_000_000,
    };
    assert_eq!(exact.sol_whole(), 1);
    assert_eq!(exact.sol_fraction(), 0);
}

#[test]
fn balance_reply_is_passed_through() {
    let mut wallet = SolanaWallet::new();
    let mut store = WalletStore::new();
    wallet.generate_new("pw", &mut store);
    let b = wallet.get_balance(Some(42)).unwrap();
    assert_eq!(b.lamports, 42);
    assert_eq!(wallet.get_balance(None), Err(WalletError::Network));
}

#[test]
fn error_messages_are_generic() {
    let m = WalletError::Authentication.message();
    assert!(!m.contains("password"));
    assert!(!m.contains("corrupt"));
}
