use cashback::account_id::is_valid_account_id;
use cashback::{CashbackError, Contract};
use ed25519_dalek::{Signer, SigningKey};

fn fresh_contract() -> Contract {
    Contract::new(
        "linkdrop.testnet".to_string(),
        "streaming.testnet".to_string(),
        "wrap.testnet".to_string(),
        "claiming-key".to_string(),
    )
}

#[test]
fn claiming_key_rotates() {
    let mut c = fresh_contract();
    assert_eq!(c.get_claiming_key(), "claiming-key".to_string());
    c.update_claiming_key("next-key".to_string());
    assert_eq!(c.get_claiming_key(), "next-key".to_string());
}

#[test]
fn linkdrop_rotation_changes_dispatch_target() {
    let mut c = fresh_contract();
    assert_eq!(c.update_linkdrop("drops.mainnet".to_string()), Ok(()));
    let sk = SigningKey::from_bytes(&[21u8; 32]);
    let mut key = vec![0u8];
    key.extend_from_slice(sk.verifying_key().as_bytes());
    let id = c.create(key, 1_000, 0);
    let action = c.claim(id, sk.sign(&id.to_be_bytes()).to_bytes().to_vec()).unwrap();
    assert_eq!(action.linkdrop_contract, "drops.mainnet".to_string());
}

#[test]
fn invalid_addresses_are_rejected() {
    let mut c = fresh_contract();
    assert_eq!(
        c.update_linkdrop("Bad".to_string()),
        Err(CashbackError::InvalidAccountId)
    );
    assert_eq!(
        c.update_roketo("a..b".to_string()),
        Err(CashbackError::InvalidAccountId)
    );
    assert_eq!(c.update_roketo("ok.addr".to_string()), Ok(()));
}

#[test]
fn account_id_syntax() {
    for good in ["ab", "alice.near", "a-b_c.d0", "0x0", "wrap.testnet"] {
        assert!(is_valid_account_id(&good.to_string()), "{good}");
    }
    let longest = "a".repeat(64);
    assert!(is_valid_account_id(&longest));
    for bad in [
        "", "a", "A", "aB", "a_", "-ab", "a..b", "a-_b", "a.b-", "a b", "ab!", "\u{e9}t\u{e9}",
    ] {
        assert!(!is_valid_account_id(&bad.to_string()), "{bad}");
    }
    let too_long = "a".repeat(65);
    assert!(!is_valid_account_id(&too_long));
}
