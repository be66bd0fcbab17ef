use bonsai_core::error::ServiceError;
use bonsai_core::keys::{derive_keychains, keychain_path};
use bonsai_core::network::NetworkKind;
use bonsai_core::wallet::WalletManager;

const ZERO_PHRASE: &str = "abandon abandon abandon abandon abandon abandon abandon abandon abandon abandon abandon about";

#[test]
fn keychain_paths_follow_bip84() {
    assert_eq!(keychain_path(NetworkKind::Main, true), "m/84'/0'/0'/0");
    assert_eq!(keychain_path(NetworkKind::Main, false), "m/84'/0'/0'/1");
    assert_eq!(keychain_path(NetworkKind::Signet, true), "m/84'/1'/0'/0");
    assert_eq!(keychain_path(NetworkKind::Regtest, false), "m/84'/1'/0'/1");
}

#[test]
fn descriptors_are_wpkh_with_wildcard() {
    let (ext, int) = derive_keychains(ZERO_PHRASE, NetworkKind::Main).unwrap();
    assert!(ext.starts_with("wpkh(xprv"));
    assert!(ext.ends_with("/*)"));
    assert!(int.starts_with("wpkh(xprv"));
    assert_ne!(ext, int);
    let (text, _) = derive_keychains(ZERO_PHRASE, NetworkKind::Signet).unwrap();
    assert!(text.starts_with("wpkh(tprv"));
}

#[test]
fn derivation_of_invalid_phrase_is_a_format_error() {
    assert_eq!(derive_keychains("hello world", NetworkKind::Main), Err(ServiceError::Format));
    assert!(matches!(WalletManager::init("hello world", NetworkKind::Main), Err(ServiceError::Format)));
}

#[test]
fn first_addresses_match_the_bip84_vectors() {
    let mut m = WalletManager::init(ZERO_PHRASE, NetworkKind::Main).unwrap();
    assert_eq!(m.get_address(), "bc1qcr8te4kr609gcawutmrza0j4xv80jy8z306fyu");
    assert_eq!(m.get_address(), "bc1qnjg0jd8228aq7egyzacy8cys3knf9xvrerkf9g");
}

#[test]
fn addresses_advance_and_are_never_reused() {
    let mut m = WalletManager::init(ZERO_PHRASE, NetworkKind::Signet).unwrap();
    let a = m.get_address();
    let b = m.get_address();
    let c = m.get_address();
    assert!(a.starts_with("tb1q"));
    assert_ne!(a, b);
    assert_ne!(b, c);
    assert_ne!(a, c);
}

#[test]
fn reinitialising_gives_the_same_addresses() {
    let mut m1 = WalletManager::init(ZERO_PHRASE, NetworkKind::Signet).unwrap();
    let mut m2 = WalletManager::init(ZERO_PHRASE, NetworkKind::Signet).unwrap();
    for _ in 0..10 {
        assert_eq!(m1.get_address(), m2.get_address());
    }
    assert_eq!(m1.get_script_pubkeys(), m2.get_script_pubkeys());
}

#[test]
fn different_networks_encode_addresses_differently() {
    let mut main = WalletManager::init(ZERO_PHRASE, NetworkKind::Main).unwrap();
    let mut reg = WalletManager::init(ZERO_PHRASE, NetworkKind::Regtest).unwrap();
    assert!(main.get_address().starts_with("bc1q"));
    assert!(reg.get_address().starts_with("bcrt1q"));
    assert_eq!(reg.network(), NetworkKind::Regtest);
}

#[test]
fn watched_scripts_cover_both_keychains() {
    let m = WalletManager::init(ZERO_PHRASE, NetworkKind::Main).unwrap();
    let scripts = m.get_script_pubkeys();
    assert_eq!(scripts.len(), 40);
    for s in &scripts {
        assert_eq!(s.len(), 22);
        assert_eq!(s[0], 0x00);
        assert_eq!(s[1], 0x14);
    }
    assert_ne!(scripts[0], scripts[1]);
    assert_ne!(scripts[0], scripts[20]);
}

#[test]
fn watched_window_follows_the_receiving_cursor() {
    let fresh = WalletManager::init(ZERO_PHRASE, NetworkKind::Main).unwrap();
    let fresh_scripts = fresh.get_script_pubkeys();
    let mut moved = WalletManager::init(ZERO_PHRASE, NetworkKind::Main).unwrap();
    for _ in 0..25 {
        moved.get_address();
    }
    let moved_scripts = moved.get_script_pubkeys();
    assert_eq!(moved_scripts.len(), 40);
    assert!(!fresh_scripts[..20].contains(&moved_scripts[0]));
    assert_eq!(&moved_scripts[20..], &fresh_scripts[20..]);
    let mut again = WalletManager::init(ZERO_PHRASE, NetworkKind::Main).unwrap();
    for _ in 0..5 {
        again.get_address();
    }
    assert_eq!(&again.get_script_pubkeys()[..15], &fresh_scripts[5..20]);
}

#[test]
fn watched_scripts_do_not_reveal_addresses() {
    let mut a = WalletManager::init(ZERO_PHRASE, NetworkKind::Main).unwrap();
    let _ = a.get_script_pubkeys();
    assert_eq!(a.get_address(), "bc1qcr8te4kr609gcawutmrza0j4xv80jy8z306fyu");
}

#[test]
fn fresh_wallet_has_no_balance() {
    let m = WalletManager::init(ZERO_PHRASE, NetworkKind::Signet).unwrap();
    assert_eq!(m.get_balance(), Some(0));
}

#[test]
fn queued_blocks_are_drained_once() {
    let mut m = WalletManager::init(ZERO_PHRASE, NetworkKind::Regtest).unwrap();
    let block = bitcoin::blockdata::constants::genesis_block(bitcoin::Network::Regtest);
    assert_eq!(m.process_pending_blocks(), 0);
    m.queue_block(block.clone(), 0);
    m.queue_block(block.clone(), 1);
    m.queue_block(block.clone(), 2);
    assert_eq!(m.process_pending_blocks(), 3);
    assert_eq!(m.process_pending_blocks(), 0);
    m.queue_block(block, 3);
    assert_eq!(m.process_pending_blocks(), 1);
}
