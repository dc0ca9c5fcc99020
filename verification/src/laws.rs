//! The laws of the claim/redemption state machine, proved over the spec
//! transitions that the entry points' contracts are stated with.

use vstd::prelude::*;

use crate::contract::{account_or_default, spec_claim, spec_create, spec_log_claim,
    spec_on_claim, spec_on_log_claim, stream_action_for, threshold_met, ContractView};
use crate::encode::{spec_u64_be_bytes, strip_curve_type};
use crate::sig::ed25519_valid;
use crate::types::{AccountActivityView, CashbackError, CashbackId, CashbackView,
    StreamActionView, TransferActionView, MIN_CASHBACK_ROKETO};

verus! {

/// A newly created record stores exactly half of the requested amount,
/// rounded down, under the identifier that creation hands back.
pub proof fn lemma_create_stores_half(
    s: ContractView,
    pub_key: Seq<u8>,
    amount: u128,
    now: u64,
)
    ensures
        ({
            let (s2, id) = spec_create(s, pub_key, amount, now);
            s2.active_cashbacks.contains_key(id) && s2.active_cashbacks[id].amount == amount / 2
                && s2.active_cashbacks[id].pub_key == pub_key && !s2.active_cashbacks[id].is_sent
        }),
{
}

/// A stored record's amount, key and creation time survive every
/// transition but the accounting removal: creation of other records,
/// claims and transfer callbacks, whatever identifier they name, leave
/// them unchanged, so the public read reports the stored amount until the
/// record is removed.
pub proof fn lemma_record_stable_until_removal(
    s: ContractView,
    id: CashbackId,
    other_key: Seq<u8>,
    other_amount: u128,
    other_now: u64,
    other_id: CashbackId,
    sig: Seq<u8>,
    promise_success: bool,
)
    requires
        s.active_cashbacks.contains_key(id),
        id != s.next_cashback_id,
    ensures
        ({
            let s1 = spec_create(s, other_key, other_amount, other_now).0;
            let s2 = spec_claim(s, other_id, sig).0;
            let s3 = spec_on_claim(s, other_id, promise_success).0;
            &&& s1.active_cashbacks.contains_key(id)
            &&& s1.active_cashbacks[id] == s.active_cashbacks[id]
            &&& s2.active_cashbacks.contains_key(id)
            &&& s2.active_cashbacks[id].amount == s.active_cashbacks[id].amount
            &&& s2.active_cashbacks[id].pub_key == s.active_cashbacks[id].pub_key
            &&& s2.active_cashbacks[id].creation_time == s.active_cashbacks[id].creation_time
            &&& s3.active_cashbacks.contains_key(id)
            &&& s3.active_cashbacks[id].amount == s.active_cashbacks[id].amount
            &&& s3.active_cashbacks[id].pub_key == s.active_cashbacks[id].pub_key
            &&& s3.active_cashbacks[id].creation_time == s.active_cashbacks[id].creation_time
        }),
{
}

/// A claim succeeds exactly when the record exists, is not marked sent,
/// and the signature is valid over the big-endian 8-byte encoding of the
/// identifier under the record's key with its curve-type byte stripped.
pub proof fn lemma_claim_success_iff(s: ContractView, id: CashbackId, sig: Seq<u8>)
    ensures
        (spec_claim(s, id, sig).1 is Ok) <==> (s.active_cashbacks.contains_key(id)
            && !s.active_cashbacks[id].is_sent && ed25519_valid(
            strip_curve_type(s.active_cashbacks[id].pub_key),
            spec_u64_be_bytes(id),
            sig,
        )),
{
}

/// Once a claim has committed the sent flag, a second claim of the same
/// identifier without an intervening failure callback is rejected as
/// already sent and changes nothing.
pub proof fn lemma_second_claim_rejected(
    s: ContractView,
    id: CashbackId,
    sig1: Seq<u8>,
    sig2: Seq<u8>,
)
    requires
        s.active_cashbacks.contains_key(id),
        !s.active_cashbacks[id].is_sent,
    ensures
        ({
            let s1 = spec_claim(s, id, sig1).0;
            spec_claim(s1, id, sig2) == (
                s1,
                Err::<TransferActionView, CashbackError>(CashbackError::AlreadySent),
            )
        }),
{
}

/// A transfer-failure callback after a successful claim resets the flag
/// and leaves amount and key unchanged, so the record is claimable again:
/// a fresh claim succeeds exactly when its signature is valid.
pub proof fn lemma_failed_transfer_restores_claim(
    s: ContractView,
    id: CashbackId,
    sig1: Seq<u8>,
    sig2: Seq<u8>,
)
    requires
        spec_claim(s, id, sig1).1 is Ok,
    ensures
        ({
            let s1 = spec_claim(s, id, sig1).0;
            let (s2, callback_result) = spec_on_claim(s1, id, false);
            callback_result == Ok::<(), CashbackError>(()) && s2.active_cashbacks.contains_key(id)
                && s2.active_cashbacks[id] == (CashbackView {
                is_sent: false,
                ..s.active_cashbacks[id]
            }) && ((spec_claim(s2, id, sig2).1 is Ok) <==> ed25519_valid(
                strip_curve_type(s.active_cashbacks[id].pub_key),
                spec_u64_be_bytes(id),
                sig2,
            ))
        }),
{
}

/// An accounting step that fails leaves the whole state unchanged; in
/// particular a claimed amount not strictly below the stored amount is
/// rejected without removing the record.
pub proof fn lemma_log_claim_failure_keeps_state(
    s: ContractView,
    account: Seq<char>,
    claimed: u128,
    id: CashbackId,
)
    ensures
        (spec_log_claim(s, account, claimed, id).1 is Err) ==> spec_log_claim(
            s,
            account,
            claimed,
            id,
        ).0 == s,
        (s.active_cashbacks.contains_key(id) && claimed >= s.active_cashbacks[id].amount)
            ==> spec_log_claim(s, account, claimed, id).1 == Err::<
            Option<StreamActionView>,
            CashbackError,
        >(CashbackError::ClaimedAmountTooLarge),
{
}

/// A successful accounting step is terminal for the record: a second step
/// naming the same identifier fails, whatever account it names, so no
/// record is counted twice.
pub proof fn lemma_log_claim_terminal(
    s: ContractView,
    account: Seq<char>,
    claimed: u128,
    id: CashbackId,
    account2: Seq<char>,
    claimed2: u128,
)
    requires
        spec_log_claim(s, account, claimed, id).1 is Ok,
    ensures
        spec_log_claim(spec_log_claim(s, account, claimed, id).0, account2, claimed2, id).1
            == Err::<Option<StreamActionView>, CashbackError>(CashbackError::NoActiveCashback),
        spec_log_claim(spec_log_claim(s, account, claimed, id).0, account2, claimed2, id).0
            == spec_log_claim(s, account, claimed, id).0,
{
}

/// A successful accounting step credits the unpaid remainder and counts
/// the purchase; exactly when the account then meets both thresholds, one
/// streaming dispatch is returned and the threshold amount is deducted,
/// and otherwise no dispatch is returned and nothing is deducted.
pub proof fn lemma_threshold_crossing(
    s: ContractView,
    account: Seq<char>,
    claimed: u128,
    id: CashbackId,
)
    requires
        spec_log_claim(s, account, claimed, id).1 is Ok,
    ensures
        ({
            let cb = s.active_cashbacks[id];
            let a0 = account_or_default(s, account);
            let a1 = AccountActivityView {
                purchases_number: (a0.purchases_number + 1) as u64,
                unpaid_cashback: (a0.unpaid_cashback + (cb.amount - claimed)) as u128,
                ..a0
            };
            let (s2, r) = spec_log_claim(s, account, claimed, id);
            &&& threshold_met(a1) ==> r == Ok::<Option<StreamActionView>, CashbackError>(
                Some(stream_action_for(s, account, a1.roketo_stream_id)),
            ) && s2.accounts[account] == (AccountActivityView {
                unpaid_cashback: (a1.unpaid_cashback - MIN_CASHBACK_ROKETO) as u128,
                ..a1
            })
            &&& !threshold_met(a1) ==> r == Ok::<Option<StreamActionView>, CashbackError>(None)
                && s2.accounts[account] == a1
        }),
{
}

/// A streaming-failure callback after a deducting accounting step restores
/// the deducted amount exactly once: the account's unpaid balance is back
/// at what the accounting step had accumulated before the deduction.
pub proof fn lemma_failed_streaming_restores(
    s: ContractView,
    account: Seq<char>,
    claimed: u128,
    id: CashbackId,
)
    requires
        ({
            let cb = s.active_cashbacks[id];
            let a0 = account_or_default(s, account);
            let a1 = AccountActivityView {
                purchases_number: (a0.purchases_number + 1) as u64,
                unpaid_cashback: (a0.unpaid_cashback + (cb.amount - claimed)) as u128,
                ..a0
            };
            spec_log_claim(s, account, claimed, id).1 is Ok && threshold_met(a1)
                && a0.unpaid_cashback + (cb.amount - claimed) <= u128::MAX
        }),
    ensures
        ({
            let cb = s.active_cashbacks[id];
            let a0 = account_or_default(s, account);
            let s2 = spec_log_claim(s, account, claimed, id).0;
            let (s3, r) = spec_on_log_claim(s2, account, MIN_CASHBACK_ROKETO, false);
            r == Ok::<(), CashbackError>(()) && s3.accounts[account].unpaid_cashback
                == a0.unpaid_cashback + (cb.amount - claimed) && s3.active_cashbacks
                == s2.active_cashbacks
        }),
{
}

} // verus!
