//! The contract state and its entry points.  Every entry point is a total
//! function from the old state to the new state and a result; the spec
//! functions beside each one state that transition over the state's view,
//! and the `ensures` clauses tie the executable code to them exactly.
//!
//! Redemption follows an optimistic-commit-then-compensate discipline: the
//! `is_sent` flag (or the deducted streaming balance) is committed before
//! the asynchronous action is handed to the host, and only the matching
//! failure callback reverses it.

use vstd::prelude::*;

use crate::account_id::{is_valid_account_id, spec_valid_account_id};
use crate::accounts::AccountsTable;
use crate::encode::{clone_bytes, spec_u64_be_bytes, strip_curve_prefix, strip_curve_type,
    u64_to_be_bytes};
use crate::ledger::CashbackLedger;
use crate::sig::{ed25519_valid, ed25519_verify};
use crate::types::{AccountActivity, AccountActivityView, Cashback, CashbackError, CashbackId,
    CashbackView, StreamAction, StreamActionView, StreamMessage, StreamMessageView, TimestampMs,
    TransferAction, TransferActionView, MIN_CASHBACK_ROKETO, MIN_PURCHACES_NUMBER_ROKETO,
    STREAM_TOKENS_PER_SEC};

verus! {

#[verifier::ext_equal]
pub struct ContractView {
    pub next_cashback_id: CashbackId,
    pub active_cashbacks: Map<CashbackId, CashbackView>,
    pub accounts: Map<Seq<char>, AccountActivityView>,
    pub claiming_key: Seq<char>,
    pub linkdrop_contract: Seq<char>,
    pub roketo_contract: Seq<char>,
    pub ft_near_contract: Seq<char>,
}

pub struct Contract {
    next_cashback_id: CashbackId,
    active_cashbacks: CashbackLedger,
    accounts: AccountsTable,
    claiming_key: String,
    linkdrop_contract: String,
    roketo_contract: String,
    ft_near_contract: String,
}

impl View for Contract {
    type V = ContractView;

    closed spec fn view(&self) -> ContractView {
        ContractView {
            next_cashback_id: self.next_cashback_id,
            active_cashbacks: self.active_cashbacks@,
            accounts: self.accounts@,
            claiming_key: self.claiming_key@,
            linkdrop_contract: self.linkdrop_contract@,
            roketo_contract: self.roketo_contract@,
            ft_near_contract: self.ft_near_contract@,
        }
    }
}

/// The counters an account starts with on its first accounting step.
pub open spec fn default_activity() -> AccountActivityView {
    AccountActivityView { unpaid_cashback: 0, purchases_number: 0, roketo_stream_id: None }
}

pub open spec fn account_or_default(s: ContractView, account: Seq<char>) -> AccountActivityView {
    if s.accounts.contains_key(account) {
        s.accounts[account]
    } else {
        default_activity()
    }
}

/// Both activity thresholds at which streaming is triggered are met.
pub open spec fn threshold_met(a: AccountActivityView) -> bool {
    a.purchases_number >= MIN_PURCHACES_NUMBER_ROKETO && a.unpaid_cashback >= MIN_CASHBACK_ROKETO
}

/// The streaming dispatch for an account: a deposit into its existing
/// stream, or the creation of a new one at the fixed emission rate.
pub open spec fn stream_action_for(
    s: ContractView,
    account: Seq<char>,
    stream_id: Option<Seq<char>>,
) -> StreamActionView {
    StreamActionView {
        ft_contract: s.ft_near_contract,
        receiver: account,
        amount: MIN_CASHBACK_ROKETO,
        message: match stream_id {
            Some(sid) => StreamMessageView::Deposit { stream_id: sid },
            None => StreamMessageView::Create {
                receiver: account,
                tokens_per_sec: STREAM_TOKENS_PER_SEC,
            },
        },
    }
}

/// Creation: a record holding half of the requested amount is stored under
/// the next identifier, and the counter moves on, never to be reused.
pub open spec fn spec_create(
    s: ContractView,
    pub_key: Seq<u8>,
    amount: u128,
    now: TimestampMs,
) -> (ContractView, CashbackId) {
    (
        ContractView {
            next_cashback_id: (s.next_cashback_id + 1) as u64,
            active_cashbacks: s.active_cashbacks.insert(
                s.next_cashback_id,
                CashbackView {
                    amount: amount / 2,
                    pub_key: pub_key,
                    creation_time: now,
                    is_sent: false,
                },
            ),
            ..s
        },
        s.next_cashback_id,
    )
}

/// Redemption: the record must exist and not be marked sent; the flag is
/// committed before the signature is examined, so an invalid signature
/// leaves the record marked sent with no transfer dispatched.
pub open spec fn spec_claim(s: ContractView, id: CashbackId, sig: Seq<u8>) -> (
    ContractView,
    Result<TransferActionView, CashbackError>,
) {
    if !s.active_cashbacks.contains_key(id) {
        (s, Err(CashbackError::NoActiveCashback))
    } else if s.active_cashbacks[id].is_sent {
        (s, Err(CashbackError::AlreadySent))
    } else {
        let cb = s.active_cashbacks[id];
        let s1 = ContractView {
            active_cashbacks: s.active_cashbacks.insert(id, CashbackView { is_sent: true, ..cb }),
            ..s
        };
        if ed25519_valid(strip_curve_type(cb.pub_key), spec_u64_be_bytes(id), sig) {
            (
                s1,
                Ok(
                    TransferActionView {
                        linkdrop_contract: s.linkdrop_contract,
                        public_key: cb.pub_key,
                        amount: cb.amount,
                        callback_id: id,
                    },
                ),
            )
        } else {
            (s1, Err(CashbackError::InvalidSignature))
        }
    }
}

/// Transfer completion: success confirms the optimistic flag; failure is
/// the sole compensation path and makes the record claimable again.
pub open spec fn spec_on_claim(s: ContractView, id: CashbackId, promise_success: bool) -> (
    ContractView,
    Result<(), CashbackError>,
) {
    if promise_success {
        (s, Ok(()))
    } else if !s.active_cashbacks.contains_key(id) {
        (s, Err(CashbackError::NoActiveCashback))
    } else {
        (
            ContractView {
                active_cashbacks: s.active_cashbacks.insert(
                    id,
                    CashbackView { is_sent: false, ..s.active_cashbacks[id] },
                ),
                ..s
            },
            Ok(()),
        )
    }
}

/// Accounting: the record is removed for good, the account's counters
/// grow by the unpaid remainder, and if both thresholds are now met the
/// threshold amount is deducted optimistically and a streaming dispatch
/// is returned.
pub open spec fn spec_log_claim(
    s: ContractView,
    account: Seq<char>,
    claimed: u128,
    id: CashbackId,
) -> (ContractView, Result<Option<StreamActionView>, CashbackError>) {
    if !s.active_cashbacks.contains_key(id) {
        (s, Err(CashbackError::NoActiveCashback))
    } else if claimed >= s.active_cashbacks[id].amount {
        (s, Err(CashbackError::ClaimedAmountTooLarge))
    } else {
        let cb = s.active_cashbacks[id];
        let a0 = account_or_default(s, account);
        let a1 = AccountActivityView {
            purchases_number: (a0.purchases_number + 1) as u64,
            unpaid_cashback: (a0.unpaid_cashback + (cb.amount - claimed)) as u128,
            ..a0
        };
        if threshold_met(a1) {
            let a2 = AccountActivityView {
                unpaid_cashback: (a1.unpaid_cashback - MIN_CASHBACK_ROKETO) as u128,
                ..a1
            };
            (
                ContractView {
                    active_cashbacks: s.active_cashbacks.remove(id),
                    accounts: s.accounts.insert(account, a2),
                    ..s
                },
                Ok(Some(stream_action_for(s, account, a1.roketo_stream_id))),
            )
        } else {
            (
                ContractView {
                    active_cashbacks: s.active_cashbacks.remove(id),
                    accounts: s.accounts.insert(account, a1),
                    ..s
                },
                Ok(None),
            )
        }
    }
}

/// The machine bound under which an accounting step cannot overflow.
pub open spec fn log_claim_fits(
    s: ContractView,
    account: Seq<char>,
    claimed: u128,
    id: CashbackId,
) -> bool {
    (s.active_cashbacks.contains_key(id) && claimed < s.active_cashbacks[id].amount) ==> {
        let a0 = account_or_default(s, account);
        a0.purchases_number < u64::MAX && a0.unpaid_cashback + (s.active_cashbacks[id].amount
            - claimed) <= u128::MAX
    }
}

/// Streaming completion: success confirms the deduction; failure restores
/// the deducted amount to the account's unpaid balance.
pub open spec fn spec_on_log_claim(
    s: ContractView,
    account: Seq<char>,
    amount: u128,
    promise_success: bool,
) -> (ContractView, Result<(), CashbackError>) {
    if promise_success {
        (s, Ok(()))
    } else if !s.accounts.contains_key(account) {
        (s, Err(CashbackError::NoAccountActivity))
    } else {
        let a = s.accounts[account];
        (
            ContractView {
                accounts: s.accounts.insert(
                    account,
                    AccountActivityView {
                        unpaid_cashback: (a.unpaid_cashback + amount) as u128,
                        ..a
                    },
                ),
                ..s
            },
            Ok(()),
        )
    }
}

/// The machine bound under which a streaming compensation cannot overflow.
pub open spec fn on_log_claim_fits(
    s: ContractView,
    account: Seq<char>,
    amount: u128,
    promise_success: bool,
) -> bool {
    (!promise_success && s.accounts.contains_key(account)) ==> s.accounts[account].unpaid_cashback
        + amount <= u128::MAX
}

pub open spec fn transfer_result_view(r: Result<TransferAction, CashbackError>) -> Result<
    TransferActionView,
    CashbackError,
> {
    match r {
        Ok(a) => Ok(a@),
        Err(e) => Err(e),
    }
}

pub open spec fn stream_result_view(r: Result<Option<StreamAction>, CashbackError>) -> Result<
    Option<StreamActionView>,
    CashbackError,
> {
    match r {
        Ok(Some(a)) => Ok(Some(a@)),
        Ok(None) => Ok(None),
        Err(e) => Err(e),
    }
}

impl Contract {
    /// Well-formed state: both stores are well-formed and no stored record
    /// carries an identifier the counter has not yet passed.
    pub closed spec fn wf(&self) -> bool {
        &&& self.active_cashbacks.wf()
        &&& self.accounts.wf()
        &&& forall|id: CashbackId|
            #[trigger] self.active_cashbacks@.contains_key(id) ==> id < self.next_cashback_id
    }

    pub fn new(linkdrop: String, roketo: String, ft_near: String, key: String) -> (s: Self)
        ensures
            s.wf(),
            s@ == (ContractView {
                next_cashback_id: 1,
                active_cashbacks: Map::<CashbackId, CashbackView>::empty(),
                accounts: Map::<Seq<char>, AccountActivityView>::empty(),
                claiming_key: key@,
                linkdrop_contract: linkdrop@,
                roketo_contract: roketo@,
                ft_near_contract: ft_near@,
            }),
    {
        let s = Contract {
            next_cashback_id: 1,
            active_cashbacks: CashbackLedger::new(),
            accounts: AccountsTable::new(),
            claiming_key: key,
            linkdrop_contract: linkdrop,
            roketo_contract: roketo,
            ft_near_contract: ft_near,
        };
        proof {
            assert(s@ =~= (ContractView {
                next_cashback_id: 1,
                active_cashbacks: Map::<CashbackId, CashbackView>::empty(),
                accounts: Map::<Seq<char>, AccountActivityView>::empty(),
                claiming_key: s.claiming_key@,
                linkdrop_contract: s.linkdrop_contract@,
                roketo_contract: s.roketo_contract@,
                ft_near_contract: s.ft_near_contract@,
            }));
        }
        s
    }

    /// Stores a new record holding half of the requested amount and hands
    /// back its identifier; the counter increments unconditionally.
    pub fn create(&mut self, pub_key: Vec<u8>, amount: u128, now_ms: TimestampMs) -> (id:
        CashbackId)
        requires
            old(self).wf(),
            old(self)@.next_cashback_id < u64::MAX,
        ensures
            final(self).wf(),
            (final(self)@, id) == spec_create(old(self)@, pub_key@, amount, now_ms),
    {
        let ghost pkv = pub_key@;
        let id = self.next_cashback_id;
        let cashback = Cashback {
            amount: amount / 2,
            pub_key: pub_key,
            creation_time: now_ms,
            is_sent: false,
        };
        proof {
            assert(!self.active_cashbacks@.contains_key(id));
        }
        self.active_cashbacks.insert_new(id, cashback);
        self.next_cashback_id = id + 1;
        proof {
            assert(self@ =~= spec_create(old(self)@, pkv, amount, now_ms).0);
        }
        id
    }

    /// Public read of a stored amount; `None` exactly when no record is
    /// under the identifier.
    pub fn get_cashback_amount(&self, id: CashbackId) -> (r: Option<u128>)
        requires
            self.wf(),
        ensures
            (match r {
                Some(a) => self@.active_cashbacks.contains_key(id) && a
                    == self@.active_cashbacks[id].amount,
                None => !self@.active_cashbacks.contains_key(id),
            }),
    {
        match self.active_cashbacks.get(id) {
            Some(cashback) => Some(cashback.amount),
            None => None,
        }
    }

    /// Redeems a record: commits the sent flag, then checks the signature
    /// over the big-endian identifier bytes under the record's key with
    /// its curve-type byte stripped, and on success returns the payout
    /// dispatch for the host to issue.
    pub fn claim(&mut self, id: CashbackId, signature: Vec<u8>) -> (r: Result<
        TransferAction,
        CashbackError,
    >)
        requires
            old(self).wf(),
        ensures
            final(self).wf(),
            final(self)@ == spec_claim(old(self)@, id, signature@).0,
            transfer_result_view(r) == spec_claim(old(self)@, id, signature@).1,
    {
        let (amount, pub_key) = match self.active_cashbacks.get(id) {
            None => {
                return Err(CashbackError::NoActiveCashback);
            },
            Some(cashback) => {
                if cashback.is_sent {
                    return Err(CashbackError::AlreadySent);
                }
                (cashback.amount, clone_bytes(&cashback.pub_key))
            },
        };
        let _found = self.active_cashbacks.set_sent(id, true);
        proof {
            assert(self@ =~= spec_claim(old(self)@, id, signature@).0);
        }
        let message = u64_to_be_bytes(id);
        let raw_key = strip_curve_prefix(&pub_key);
        if ed25519_verify(&raw_key, &message, &signature) {
            Ok(
                TransferAction {
                    linkdrop_contract: self.linkdrop_contract.clone(),
                    public_key: pub_key,
                    amount: amount,
                    callback_id: id,
                },
            )
        } else {
            Err(CashbackError::InvalidSignature)
        }
    }

    /// Host-only completion callback of the payout dispatch.
    pub fn on_claim(&mut self, id: CashbackId, promise_success: bool) -> (r: Result<
        (),
        CashbackError,
    >)
        requires
            old(self).wf(),
        ensures
            final(self).wf(),
            final(self)@ == spec_on_claim(old(self)@, id, promise_success).0,
            r == spec_on_claim(old(self)@, id, promise_success).1,
    {
        if promise_success {
            return Ok(());
        }
        let found = self.active_cashbacks.set_sent(id, false);
        proof {
            assert(self@ =~= spec_on_claim(old(self)@, id, promise_success).0);
        }
        if found {
            Ok(())
        } else {
            Err(CashbackError::NoActiveCashback)
        }
    }

    /// Whether the account's counters now meet both streaming thresholds.
    fn check_roketo_streaming(&self, activity: &AccountActivity) -> (b: bool)
        ensures
            b == threshold_met(activity@),
    {
        activity.purchases_number >= MIN_PURCHACES_NUMBER_ROKETO && activity.unpaid_cashback
            >= MIN_CASHBACK_ROKETO
    }

    /// Builds the streaming dispatch for the account: a deposit into its
    /// existing stream, or the creation of a new one.
    fn process_roketo_activity(&self, account_id: &String, activity: &AccountActivity) -> (a:
        StreamAction)
        ensures
            a@ == stream_action_for(self@, account_id@, activity@.roketo_stream_id),
    {
        match &activity.roketo_stream_id {
            Some(sid) => StreamAction {
                ft_contract: self.ft_near_contract.clone(),
                receiver: account_id.clone(),
                amount: MIN_CASHBACK_ROKETO,
                message: StreamMessage::Deposit { stream_id: sid.clone() },
            },
            None => StreamAction {
                ft_contract: self.ft_near_contract.clone(),
                receiver: account_id.clone(),
                amount: MIN_CASHBACK_ROKETO,
                message: StreamMessage::Create {
                    receiver: account_id.clone(),
                    tokens_per_sec: STREAM_TOKENS_PER_SEC,
                },
            },
        }
    }

    /// Privileged accounting step: removes the record for good, credits
    /// the unpaid remainder to the account, and, when both thresholds are
    /// met, deducts the threshold amount and returns the streaming
    /// dispatch for the host to issue.
    pub fn log_claim(
        &mut self,
        account_id: String,
        claimed_amount: u128,
        cashback_id: CashbackId,
    ) -> (r: Result<Option<StreamAction>, CashbackError>)
        requires
            old(self).wf(),
            log_claim_fits(old(self)@, account_id@, claimed_amount, cashback_id),
        ensures
            final(self).wf(),
            final(self)@ == spec_log_claim(old(self)@, account_id@, claimed_amount, cashback_id).0,
            stream_result_view(r) == spec_log_claim(
                old(self)@,
                account_id@,
                claimed_amount,
                cashback_id,
            ).1,
    {
        let cashback_amount = match self.active_cashbacks.get(cashback_id) {
            None => {
                return Err(CashbackError::NoActiveCashback);
            },
            Some(cashback) => cashback.amount,
        };
        if claimed_amount >= cashback_amount {
            return Err(CashbackError::ClaimedAmountTooLarge);
        }
        let _removed = self.active_cashbacks.remove(cashback_id);
        let unpaid_amount = cashback_amount - claimed_amount;
        let mut activity = match self.accounts.get(&account_id) {
            Some(a) => a.duplicate(),
            None => AccountActivity::default(),
        };
        activity.purchases_number = activity.purchases_number + 1;
        activity.unpaid_cashback = activity.unpaid_cashback + unpaid_amount;
        let is_roketo_streaming = self.check_roketo_streaming(&activity);
        let mut dispatched: Option<StreamAction> = None;
        if is_roketo_streaming {
            // the choice of message is settled by the stream the account
            // already has; the deduction does not touch it
            dispatched = Some(self.process_roketo_activity(&account_id, &activity));
            activity.unpaid_cashback = activity.unpaid_cashback - MIN_CASHBACK_ROKETO;
        }
        self.accounts.upsert(&account_id, activity);
        proof {
            assert(self@ =~= spec_log_claim(
                old(self)@,
                account_id@,
                claimed_amount,
                cashback_id,
            ).0);
        }
        Ok(dispatched)
    }

    /// Host-only completion callback of the streaming dispatch.
    pub fn on_log_claim(
        &mut self,
        account_id: String,
        roketo_cashback: u128,
        promise_success: bool,
    ) -> (r: Result<(), CashbackError>)
        requires
            old(self).wf(),
            on_log_claim_fits(old(self)@, account_id@, roketo_cashback, promise_success),
        ensures
            final(self).wf(),
            final(self)@ == spec_on_log_claim(
                old(self)@,
                account_id@,
                roketo_cashback,
                promise_success,
            ).0,
            r == spec_on_log_claim(old(self)@, account_id@, roketo_cashback, promise_success).1,
    {
        if promise_success {
            return Ok(());
        }
        let mut activity = match self.accounts.get(&account_id) {
            None => {
                return Err(CashbackError::NoAccountActivity);
            },
            Some(a) => a.duplicate(),
        };
        activity.unpaid_cashback = activity.unpaid_cashback + roketo_cashback;
        self.accounts.upsert(&account_id, activity);
        proof {
            assert(self@ =~= spec_on_log_claim(
                old(self)@,
                account_id@,
                roketo_cashback,
                promise_success,
            ).0);
        }
        Ok(())
    }

    /// Rotates the off-chain claim authorization key.
    pub fn update_claiming_key(&mut self, key: String)
        requires
            old(self).wf(),
        ensures
            final(self).wf(),
            final(self)@ == (ContractView { claiming_key: key@, ..old(self)@ }),
    {
        self.claiming_key = key;
        proof {
            assert(self@ =~= (ContractView { claiming_key: self.claiming_key@, ..old(self)@ }));
        }
    }

    /// Rotates the transfer-dispatch service address; the new value must
    /// be a syntactically valid account identifier.
    pub fn update_linkdrop(&mut self, contract_id: String) -> (r: Result<(), CashbackError>)
        requires
            old(self).wf(),
        ensures
            final(self).wf(),
            spec_valid_account_id(contract_id@) ==> r == Ok::<(), CashbackError>(())
                && final(self)@ == (ContractView {
                linkdrop_contract: contract_id@,
                ..old(self)@
            }),
            !spec_valid_account_id(contract_id@) ==> r == Err::<(), CashbackError>(
                CashbackError::InvalidAccountId,
            ) && *final(self) == *old(self),
    {
        if !is_valid_account_id(&contract_id) {
            return Err(CashbackError::InvalidAccountId);
        }
        self.linkdrop_contract = contract_id;
        proof {
            assert(self@ =~= (ContractView {
                linkdrop_contract: self.linkdrop_contract@,
                ..old(self)@
            }));
        }
        Ok(())
    }

    /// Rotates the streaming service address; the new value must be a
    /// syntactically valid account identifier.
    pub fn update_roketo(&mut self, contract_id: String) -> (r: Result<(), CashbackError>)
        requires
            old(self).wf(),
        ensures
            final(self).wf(),
            spec_valid_account_id(contract_id@) ==> r == Ok::<(), CashbackError>(())
                && final(self)@ == (ContractView {
                roketo_contract: contract_id@,
                ..old(self)@
            }),
            !spec_valid_account_id(contract_id@) ==> r == Err::<(), CashbackError>(
                CashbackError::InvalidAccountId,
            ) && *final(self) == *old(self),
    {
        if !is_valid_account_id(&contract_id) {
            return Err(CashbackError::InvalidAccountId);
        }
        self.roketo_contract = contract_id;
        proof {
            assert(self@ =~= (ContractView {
                roketo_contract: self.roketo_contract@,
                ..old(self)@
            }));
        }
        Ok(())
    }

    /// Public read of the off-chain claim authorization key.
    pub fn get_claiming_key(&self) -> (k: String)
        ensures
            k@ == self@.claiming_key,
    {
        self.claiming_key.clone()
    }

    /// The identifier the next created record will get; lets a caller
    /// check the counter bound before creation.
    pub fn get_next_cashback_id(&self) -> (id: CashbackId)
        ensures
            id == self@.next_cashback_id,
    {
        self.next_cashback_id
    }

    /// Read of an account's counters; `None` exactly when the account has
    /// never been the subject of an accounting step.
    pub fn get_account_activity(&self, account_id: &String) -> (r: Option<&AccountActivity>)
        requires
            self.wf(),
        ensures
            (match r {
                Some(a) => self@.accounts.contains_key(account_id@) && a@
                    == self@.accounts[account_id@],
                None => !self@.accounts.contains_key(account_id@),
            }),
    {
        self.accounts.get(account_id)
    }
}

} // verus!
