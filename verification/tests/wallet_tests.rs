use solana_sdk::signature::Keypair;
use solana_sdk::signer::Signer;
use solana_smart_stack::chain::signature_from_bytes;
use solana_smart_stack::wallet::{portal_status, Wallet, WalletError};

#[test]
fn short_key_bytes_are_refused() {
    let r = Wallet::from_key_bytes(&vec![1u8; 63]);
    assert!(matches!(r, Err(WalletError::InvalidKeypair)));
    assert_eq!(
        WalletError::InvalidKeypair.message(),
        "Failed to initialize cryptographic Keypair from private key payload"
    );
}

#[test]
fn mismatched_halves_are_refused() {
    let a = Keypair::new();
    let b = Keypair::new();
    let mut bytes = a.to_bytes()[..32].to_vec();
    bytes.extend_from_slice(&b.pubkey().to_bytes());
    assert!(Wallet::from_key_bytes(&bytes).is_err());
}

#[test]
fn valid_keypair_bytes_load_the_wallet() {
    let kp = Keypair::new();
    let w = Wallet::from_key_bytes(&kp.to_bytes().to_vec()).ok().unwrap();
    assert_eq!(w.pubkey(), kp.pubkey().to_bytes());
    assert_eq!(w.key_bytes(), &kp.to_bytes().to_vec());
}

#[test]
fn signatures_need_exactly_sixty_four_bytes() {
    assert_eq!(signature_from_bytes(&[3u8; 64]), Some([3u8; 64]));
    assert_eq!(signature_from_bytes(&[3u8; 65]), None);
    assert_eq!(signature_from_bytes(&[]), None);
}

#[test]
fn portal_flag_follows_the_balance_query() {
    assert_eq!(portal_status(Some(5)), "ACTIVE");
    assert_eq!(portal_status(None), "RPC_TIMEOUT");
}

#[test]
fn longer_key_bytes_are_refused() {
    let kp = Keypair::new();
    let mut bytes = kp.to_bytes().to_vec();
    bytes.push(0);
    assert!(Wallet::from_key_bytes(&bytes).is_err());
}

#[test]
fn key_text_is_a_json_byte_array() {
    let kp = Keypair::new();
    let text = format!("{:?}", kp.to_bytes().to_vec());
    let w = Wallet::from_key_text(&text).ok().unwrap();
    assert_eq!(w.pubkey(), kp.pubkey().to_bytes());
    assert!(matches!(Wallet::from_key_text("not json"), Err(WalletError::InvalidKeyText)));
    assert!(matches!(Wallet::from_key_text("[1,2,300]"), Err(WalletError::InvalidKeyText)));
    assert!(matches!(Wallet::from_key_text("[1,2,3]"), Err(WalletError::InvalidKeypair)));
    assert_eq!(
        WalletError::InvalidKeyText.message(),
        "SOLANA_PRIVATE_KEY format must be a clean valid JSON integer array (e.g., [12,34,...])"
    );
}
