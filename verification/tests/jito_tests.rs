use solana_sdk::signature::Keypair;
use solana_sdk::signer::Signer;
use solana_sdk::transaction::VersionedTransaction;
use solana_smart_stack::chain::{parse_pubkey, system_transfer};
use solana_smart_stack::jito::{
    bundle_instructions, bundle_transfers, encode_bundle_transaction, interpret_bundle_response,
    parse_tip_accounts, prepare_bundle, BundleError, TipAccountsError,
};
use solana_smart_stack::wallet::Wallet;

fn wallet_of(kp: &Keypair) -> Wallet {
    Wallet::from_key_bytes(&kp.to_bytes().to_vec()).ok().unwrap()
}

const TIP_A: &str = "96gYZGLnJYVFmbjzopPSU6QiEV5fGqZNyN9nmNhvrZU5";
const TIP_B: &str = "HFqU5x63VTqvQss8hp11i4wVV8bD44PvwucfZ2bU7gRe";

fn key(text: &str) -> [u8; 32] {
    bs58::decode(text).into_vec().unwrap().try_into().unwrap()
}

#[test]
fn tip_accounts_need_a_list() {
    let r = parse_tip_accounts(None);
    assert!(matches!(r, Err(TipAccountsError::InvalidFormat)));
    assert_eq!(
        TipAccountsError::InvalidFormat.message(),
        "Invalid getTipAccounts format returned by Jito"
    );
}

#[test]
fn tip_accounts_skip_invalid_entries_in_order() {
    let entries = vec![
        Some(TIP_B.to_string()),
        None,
        Some("not-base58-0OIl".to_string()),
        Some(TIP_A.to_string()),
        Some("1".repeat(50)),
    ];
    let accounts = parse_tip_accounts(Some(entries)).ok().unwrap();
    assert_eq!(accounts, vec![key(TIP_B), key(TIP_A)]);
}

#[test]
fn tip_accounts_without_valid_entries_are_an_error() {
    let r = parse_tip_accounts(Some(vec![None, Some("xyz".to_string())]));
    assert!(matches!(r, Err(TipAccountsError::NoTipAccounts)));
    assert_eq!(
        TipAccountsError::NoTipAccounts.message(),
        "CRITICAL: No Jito tip accounts returned from Block Engine"
    );
    assert!(matches!(parse_tip_accounts(Some(vec![])), Err(TipAccountsError::NoTipAccounts)));
}

#[test]
fn pubkey_parsing_decodes_base58() {
    assert_eq!(parse_pubkey("11111111111111111111111111111111"), Some([0u8; 32]));
    assert_eq!(parse_pubkey(TIP_A), Some(key(TIP_A)));
    assert_eq!(parse_pubkey("0"), None);
}

#[test]
fn bundle_has_a_self_transfer_then_the_tip() {
    let payer = [1u8; 32];
    let tip_account = [2u8; 32];
    let t = bundle_transfers(payer, tip_account, 12_345);
    assert_eq!(t.len(), 2);
    assert_eq!((t[0].from, t[0].to, t[0].lamports), (payer, payer, 0));
    assert_eq!((t[1].from, t[1].to, t[1].lamports), (payer, tip_account, 12_345));
}

#[test]
fn system_transfer_layout() {
    let ix = system_transfer([3u8; 32], [4u8; 32], 0x0102_0304_0506_0708);
    assert_eq!(ix.program_id, [0u8; 32]);
    assert_eq!(ix.accounts.len(), 2);
    assert_eq!((ix.accounts[0].key, ix.accounts[0].is_signer, ix.accounts[0].is_writable), ([3u8; 32], true, true));
    assert_eq!((ix.accounts[1].key, ix.accounts[1].is_signer, ix.accounts[1].is_writable), ([4u8; 32], false, true));
    assert_eq!(ix.data, vec![2, 0, 0, 0, 8, 7, 6, 5, 4, 3, 2, 1]);
}

#[test]
fn encoded_bundle_is_a_signed_two_instruction_transaction() {
    let kp = Keypair::new();
    let blockhash = [9u8; 32];
    let tip_account = key(TIP_A);
    let text = encode_bundle_transaction(&wallet_of(&kp), blockhash, tip_account, 20_000);
    let bytes = bs58::decode(&text).into_vec().unwrap();
    let tx: VersionedTransaction = bincode::deserialize(&bytes).unwrap();
    assert_eq!(tx.signatures.len(), 1);
    assert!(tx.verify_with_results().iter().all(|ok| *ok));
    assert_eq!(tx.message.recent_blockhash().to_bytes(), blockhash);
    assert_eq!(tx.message.instructions().len(), 2);
    let keys = tx.message.static_account_keys();
    assert_eq!(keys[0], kp.pubkey());
    assert!(keys.iter().any(|k| k.to_bytes() == tip_account));
    assert_eq!(tx.message.header().num_required_signatures, 1);
    // Signing is deterministic: the same inputs give the same text.
    assert_eq!(encode_bundle_transaction(&wallet_of(&kp), blockhash, tip_account, 20_000), text);
}

#[test]
fn bundle_instructions_are_two_system_transfers() {
    let ixs = bundle_instructions([1u8; 32], [2u8; 32], 7);
    assert_eq!(ixs.len(), 2);
    assert_eq!(ixs[0].program_id, [0u8; 32]);
    assert_eq!((ixs[0].accounts[0].key, ixs[0].accounts[1].key), ([1u8; 32], [1u8; 32]));
    assert_eq!((ixs[1].accounts[0].key, ixs[1].accounts[1].key), ([1u8; 32], [2u8; 32]));
    assert_eq!(ixs[0].data, vec![2, 0, 0, 0, 0, 0, 0, 0, 0, 0, 0, 0]);
    assert_eq!(ixs[1].data, vec![2, 0, 0, 0, 7, 0, 0, 0, 0, 0, 0, 0]);
}

#[test]
fn tip_paid_to_the_payer_itself_still_builds() {
    let kp = Keypair::new();
    let text = encode_bundle_transaction(&wallet_of(&kp), [1u8; 32], kp.pubkey().to_bytes(), 10_000);
    let tx: VersionedTransaction = bincode::deserialize(&bs58::decode(&text).into_vec().unwrap()).unwrap();
    assert_eq!(tx.message.static_account_keys().len(), 2);
    assert!(tx.verify_with_results().iter().all(|ok| *ok));
}

#[test]
fn prepared_bundle_pays_a_listed_account() {
    let kp = Keypair::new();
    let accounts = vec![key(TIP_A), key(TIP_B)];
    for _ in 0..10 {
        let b = prepare_bundle(&wallet_of(&kp), [5u8; 32], 10_000, &accounts).ok().unwrap();
        assert!(accounts.contains(&b.tip_account));
        assert_eq!(
            b.encoded_transaction,
            encode_bundle_transaction(&wallet_of(&kp), [5u8; 32], b.tip_account, 10_000)
        );
    }
}

#[test]
fn no_tip_account_means_no_bundle() {
    let kp = Keypair::new();
    let r = prepare_bundle(&wallet_of(&kp), [5u8; 32], 10_000, &vec![]);
    assert!(matches!(r, Err(BundleError::NoTipAccount)));
    if let Err(e) = r {
        assert_eq!(e.message(), "No tip accounts available");
    }
}

#[test]
fn refusals_carry_the_engine_message() {
    let r = interpret_bundle_response(Some(Some("Blockhash not found".to_string())), None);
    assert!(matches!(&r, Err(BundleError::Rejected(m)) if m == "Blockhash not found"));
    let r = interpret_bundle_response(Some(None), Some("ignored".to_string()));
    assert!(matches!(&r, Err(BundleError::Rejected(m)) if m == "Unknown simulation error"));
    if let Err(e) = r {
        assert_eq!(e.message(), "Unknown simulation error");
    }
}

#[test]
fn accepted_bundles_carry_their_id() {
    let r = interpret_bundle_response(None, Some("b1d2".to_string()));
    assert_eq!(r.ok(), Some("b1d2".to_string()));
    let r = interpret_bundle_response(None, None);
    assert!(matches!(r, Err(BundleError::MissingBundleId)));
    if let Err(e) = r {
        assert_eq!(e.message(), "Valid bundle_id not found in successful response");
    }
}
