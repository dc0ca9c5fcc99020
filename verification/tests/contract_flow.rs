use cashback::{CashbackError, Contract, StreamMessage};
use ed25519_dalek::{Signer, SigningKey};

const REWARD_THRESHOLD: u128 = 200_000_000_000_000_000_000_000;

fn fresh_contract() -> Contract {
    Contract::new(
        "linkdrop.testnet".to_string(),
        "streaming.testnet".to_string(),
        "wrap.testnet".to_string(),
        "claiming-key".to_string(),
    )
}

/// A stored key: one curve-type byte, then the raw 32-byte public key.
fn keypair(seed: u8) -> (Vec<u8>, SigningKey) {
    let sk = SigningKey::from_bytes(&[seed; 32]);
    let vk = sk.verifying_key();
    let mut stored = vec![0u8];
    stored.extend_from_slice(vk.as_bytes());
    (stored, sk)
}

fn sign_id(sk: &SigningKey, id: u64) -> Vec<u8> {
    sk.sign(&id.to_be_bytes()).to_bytes().to_vec()
}

#[test]
fn create_stores_half_and_get_reports_it() {
    let mut c = fresh_contract();
    let (key, _) = keypair(1);
    let id = c.create(key.clone(), 1_000, 7);
    assert_eq!(id, 1);
    assert_eq!(c.get_cashback_amount(id), Some(500));
    let id2 = c.create(key, 7, 8);
    assert_eq!(id2, 2);
    assert_eq!(c.get_cashback_amount(id2), Some(3));
    assert_eq!(c.get_cashback_amount(99), None);
    assert_eq!(c.get_next_cashback_id(), 3);
}

#[test]
fn claim_with_valid_signature_succeeds() {
    let mut c = fresh_contract();
    let (key, sk) = keypair(2);
    let id = c.create(key.clone(), 1_000, 0);
    let action = c.claim(id, sign_id(&sk, id)).expect("valid claim");
    assert_eq!(action.amount, 500);
    assert_eq!(action.public_key, key);
    assert_eq!(action.linkdrop_contract, "linkdrop.testnet".to_string());
    assert_eq!(action.callback_id, id);
}

#[test]
fn claim_rejects_wrong_key_signature_and_unknown_id() {
    let mut c = fresh_contract();
    let (key, _) = keypair(3);
    let (_, other_sk) = keypair(4);
    let id = c.create(key, 1_000, 0);
    assert_eq!(c.claim(id, sign_id(&other_sk, id)), Err(CashbackError::InvalidSignature));
    assert_eq!(c.claim(id + 1, vec![0u8; 64]), Err(CashbackError::NoActiveCashback));
}

#[test]
fn claim_rejects_flipped_signature_bit_and_wrong_id() {
    let mut c = fresh_contract();
    let (key, sk) = keypair(5);
    let id = c.create(key.clone(), 1_000, 0);
    let mut sig = sign_id(&sk, id);
    sig[0] ^= 1;
    assert_eq!(c.claim(id, sig), Err(CashbackError::InvalidSignature));
    // a signature over a different identifier does not redeem this one
    let id2 = c.create(key, 1_000, 0);
    assert_eq!(c.claim(id2, sign_id(&sk, id)), Err(CashbackError::InvalidSignature));
}

#[test]
fn claim_rejects_flipped_key_bit() {
    let (mut key, sk) = keypair(15);
    // the raw key material no longer matches the signer
    key[1] ^= 1;
    let mut c = fresh_contract();
    let id = c.create(key, 1_000, 0);
    assert_eq!(c.claim(id, sign_id(&sk, id)), Err(CashbackError::InvalidSignature));
}

#[test]
fn claim_rejects_stored_key_of_wrong_length() {
    let mut c = fresh_contract();
    // one curve-type byte and 30 bytes of key material: never verifiable
    let id = c.create(vec![0u8; 31], 1_000, 0);
    assert_eq!(c.claim(id, vec![0u8; 64]), Err(CashbackError::InvalidSignature));
}

#[test]
fn claim_rejects_malformed_signature_bytes() {
    let mut c = fresh_contract();
    let (key, _) = keypair(6);
    let id = c.create(key, 1_000, 0);
    assert_eq!(c.claim(id, vec![13, 254, 123]), Err(CashbackError::InvalidSignature));
}

#[test]
fn second_claim_is_rejected_as_already_sent() {
    let mut c = fresh_contract();
    let (key, sk) = keypair(7);
    let id = c.create(key, 1_000, 0);
    assert!(c.claim(id, sign_id(&sk, id)).is_ok());
    assert_eq!(c.claim(id, sign_id(&sk, id)), Err(CashbackError::AlreadySent));
}

#[test]
fn invalid_signature_still_marks_record_sent() {
    // the flag is committed before the signature is examined, so a failed
    // check leaves the record marked sent with no compensation path
    let mut c = fresh_contract();
    let (key, sk) = keypair(8);
    let id = c.create(key, 1_000, 0);
    assert_eq!(c.claim(id, vec![0u8; 64]), Err(CashbackError::InvalidSignature));
    assert_eq!(c.claim(id, sign_id(&sk, id)), Err(CashbackError::AlreadySent));
    assert_eq!(c.get_cashback_amount(id), Some(500));
}

#[test]
fn failed_transfer_makes_record_claimable_again() {
    let mut c = fresh_contract();
    let (key, sk) = keypair(9);
    let id = c.create(key, 1_000, 0);
    assert!(c.claim(id, sign_id(&sk, id)).is_ok());
    assert_eq!(c.on_claim(id, false), Ok(()));
    let action = c.claim(id, sign_id(&sk, id)).expect("claimable again");
    assert_eq!(action.amount, 500);
}

#[test]
fn successful_transfer_keeps_record_sent() {
    let mut c = fresh_contract();
    let (key, sk) = keypair(10);
    let id = c.create(key, 1_000, 0);
    assert!(c.claim(id, sign_id(&sk, id)).is_ok());
    assert_eq!(c.on_claim(id, true), Ok(()));
    assert_eq!(c.claim(id, sign_id(&sk, id)), Err(CashbackError::AlreadySent));
}

#[test]
fn transfer_callback_for_unknown_id_fails() {
    let mut c = fresh_contract();
    assert_eq!(c.on_claim(5, false), Err(CashbackError::NoActiveCashback));
    assert_eq!(c.on_claim(5, true), Ok(()));
}

#[test]
fn log_claim_with_too_large_amount_fails_without_removing() {
    let mut c = fresh_contract();
    let (key, _) = keypair(11);
    let id = c.create(key, 1_000, 0);
    let account = "alice.testnet".to_string();
    // equality is rejected too: the claimed amount must be strictly smaller
    assert_eq!(
        c.log_claim(account.clone(), 500, id),
        Err(CashbackError::ClaimedAmountTooLarge)
    );
    assert_eq!(
        c.log_claim(account.clone(), 600, id),
        Err(CashbackError::ClaimedAmountTooLarge)
    );
    // the record is still there and is counted exactly once afterwards
    assert_eq!(c.get_cashback_amount(id), Some(500));
    assert!(c.get_account_activity(&account).is_none());
    assert_eq!(c.log_claim(account.clone(), 100, id), Ok(None));
    assert_eq!(c.get_cashback_amount(id), None);
    assert_eq!(
        c.log_claim(account.clone(), 100, id),
        Err(CashbackError::NoActiveCashback)
    );
    let activity = c.get_account_activity(&account).expect("account recorded");
    assert_eq!(activity.purchases_number, 1);
    assert_eq!(activity.unpaid_cashback, 400);
}

#[test]
fn example_run_from_creation_to_accounting() {
    let mut c = fresh_contract();
    let (key, sk) = keypair(12);
    let id = c.create(key, 1_000, 3);
    assert_eq!(c.get_cashback_amount(id), Some(500));
    assert!(c.claim(id, sign_id(&sk, id)).is_ok());
    assert_eq!(c.on_claim(id, true), Ok(()));
    let account = "alice.testnet".to_string();
    assert_eq!(c.log_claim(account.clone(), 100, id), Ok(None));
    let activity = c.get_account_activity(&account).expect("account recorded");
    assert_eq!(activity.purchases_number, 1);
    assert_eq!(activity.unpaid_cashback, 400);
    assert!(activity.roketo_stream_id.is_none());
}

#[test]
fn threshold_crossing_dispatches_streaming_exactly_once() {
    let mut c = fresh_contract();
    let (key, _) = keypair(13);
    let account = "bob.testnet".to_string();
    // each step leaves the full stored amount unpaid
    let per_step = 2 * REWARD_THRESHOLD;
    for step in 0..3u64 {
        let id = c.create(key.clone(), 2 * per_step, 0);
        let r = c.log_claim(account.clone(), 0, id).expect("accounting succeeds");
        if step < 2 {
            // thresholds need three purchases; nothing dispatched yet
            assert!(r.is_none());
        } else {
            let action = r.expect("third step crosses the threshold");
            assert_eq!(action.amount, REWARD_THRESHOLD);
            assert_eq!(action.ft_contract, "wrap.testnet".to_string());
            assert_eq!(action.receiver, account);
            match action.message {
                StreamMessage::Create { receiver, tokens_per_sec } => {
                    assert_eq!(receiver, account);
                    assert_eq!(tokens_per_sec, 3);
                }
                StreamMessage::Deposit { .. } => panic!("no stream exists yet"),
            }
        }
    }
    let expected_after_deduction = 3 * per_step - REWARD_THRESHOLD;
    let activity = c.get_account_activity(&account).expect("account recorded");
    assert_eq!(activity.purchases_number, 3);
    assert_eq!(activity.unpaid_cashback, expected_after_deduction);
    // a failure callback restores the deduction exactly once
    assert_eq!(c.on_log_claim(account.clone(), REWARD_THRESHOLD, false), Ok(()));
    let activity = c.get_account_activity(&account).expect("account recorded");
    assert_eq!(activity.unpaid_cashback, 3 * per_step);
}

#[test]
fn successful_streaming_keeps_deduction() {
    let mut c = fresh_contract();
    let (key, _) = keypair(14);
    let account = "carol.testnet".to_string();
    for _ in 0..3 {
        let id = c.create(key.clone(), 4 * REWARD_THRESHOLD, 0);
        c.log_claim(account.clone(), 0, id).expect("accounting succeeds");
    }
    let before = c.get_account_activity(&account).unwrap().unpaid_cashback;
    assert_eq!(c.on_log_claim(account.clone(), REWARD_THRESHOLD, true), Ok(()));
    assert_eq!(c.get_account_activity(&account).unwrap().unpaid_cashback, before);
}

#[test]
fn streaming_callback_for_unknown_account_fails() {
    let mut c = fresh_contract();
    assert_eq!(
        c.on_log_claim("nobody.testnet".to_string(), REWARD_THRESHOLD, false),
        Err(CashbackError::NoAccountActivity)
    );
    assert_eq!(
        c.on_log_claim("nobody.testnet".to_string(), REWARD_THRESHOLD, true),
        Ok(())
    );
}
