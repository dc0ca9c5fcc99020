//! Data model: cashback records, account activity counters, the actions a
//! redemption or accounting step asks the host to dispatch, and the errors
//! an entry point can fail with.

use vstd::prelude::*;

verus! {

pub type CashbackId = u64;

pub type TimestampMs = u64;

/// Unpaid reward needed, together with the purchase count below, before a
/// streaming dispatch is triggered (0.2 NEAR in yocto units).
pub const MIN_CASHBACK_ROKETO: u128 = 200_000_000_000_000_000_000_000;

/// Logged purchases needed before a streaming dispatch is triggered.
pub const MIN_PURCHACES_NUMBER_ROKETO: u64 = 3;

/// Fixed emission rate requested when a new reward stream is created.
pub const STREAM_TOKENS_PER_SEC: u64 = 3;

/// A pending reward, redeemable once by a signature under `pub_key`.
pub struct Cashback {
    pub amount: u128,
    /// One curve-type byte followed by the raw public key material.
    pub pub_key: Vec<u8>,
    pub creation_time: TimestampMs,
    /// Redemption-in-flight-or-confirmed flag.
    pub is_sent: bool,
}

#[verifier::ext_equal]
pub struct CashbackView {
    pub amount: u128,
    pub pub_key: Seq<u8>,
    pub creation_time: TimestampMs,
    pub is_sent: bool,
}

impl View for Cashback {
    type V = CashbackView;

    open spec fn view(&self) -> CashbackView {
        CashbackView {
            amount: self.amount,
            pub_key: self.pub_key@,
            creation_time: self.creation_time,
            is_sent: self.is_sent,
        }
    }
}

/// Cumulative purchase and unpaid-reward counters of one account.
pub struct AccountActivity {
    pub unpaid_cashback: u128,
    pub purchases_number: u64,
    pub roketo_stream_id: Option<String>,
}

#[verifier::ext_equal]
pub struct AccountActivityView {
    pub unpaid_cashback: u128,
    pub purchases_number: u64,
    pub roketo_stream_id: Option<Seq<char>>,
}

impl View for AccountActivity {
    type V = AccountActivityView;

    open spec fn view(&self) -> AccountActivityView {
        AccountActivityView {
            unpaid_cashback: self.unpaid_cashback,
            purchases_number: self.purchases_number,
            roketo_stream_id: match self.roketo_stream_id {
                Some(ref s) => Some(s@),
                None => None,
            },
        }
    }
}

impl AccountActivity {
    /// An owned copy; the durable store hands out references only.
    pub fn duplicate(&self) -> (r: Self)
        ensures
            r@ == self@,
    {
        AccountActivity {
            unpaid_cashback: self.unpaid_cashback,
            purchases_number: self.purchases_number,
            roketo_stream_id: match &self.roketo_stream_id {
                Some(s) => Some(s.clone()),
                None => None,
            },
        }
    }
}

impl Default for AccountActivity {
    fn default() -> (r: Self)
        ensures
            r@ == (AccountActivityView {
                unpaid_cashback: 0,
                purchases_number: 0,
                roketo_stream_id: None::<Seq<char>>,
            }),
    {
        Self { unpaid_cashback: 0, purchases_number: 0, roketo_stream_id: None }
    }
}

/// Synchronous failure of an entry point.  In the host environment such a
/// failure aborts the whole invocation, so every entry point that returns
/// one of these also promises to leave the state as it found it, with the
/// single deliberate exception noted at `Contract::claim`.
#[derive(Clone, Copy, PartialEq, Eq, Structural, Debug)]
pub enum CashbackError {
    NoActiveCashback,
    AlreadySent,
    InvalidSignature,
    ClaimedAmountTooLarge,
    NoAccountActivity,
    InvalidAccountId,
}

/// The one-time payout a successful claim asks the host to dispatch: a
/// `send(public_key)` call on the transfer-dispatch service carrying
/// `amount`, with a completion callback keyed by `callback_id`.
#[derive(Debug, PartialEq)]
pub struct TransferAction {
    pub linkdrop_contract: String,
    pub public_key: Vec<u8>,
    pub amount: u128,
    pub callback_id: CashbackId,
}

#[verifier::ext_equal]
pub struct TransferActionView {
    pub linkdrop_contract: Seq<char>,
    pub public_key: Seq<u8>,
    pub amount: u128,
    pub callback_id: CashbackId,
}

impl View for TransferAction {
    type V = TransferActionView;

    open spec fn view(&self) -> TransferActionView {
        TransferActionView {
            linkdrop_contract: self.linkdrop_contract@,
            public_key: self.public_key@,
            amount: self.amount,
            callback_id: self.callback_id,
        }
    }
}

/// Payload of a streaming dispatch: create a new stream to the account, or
/// top up the one it already has.
#[derive(Debug, PartialEq)]
pub enum StreamMessage {
    Create { receiver: String, tokens_per_sec: u64 },
    Deposit { stream_id: String },
}

#[verifier::ext_equal]
pub enum StreamMessageView {
    Create { receiver: Seq<char>, tokens_per_sec: u64 },
    Deposit { stream_id: Seq<char> },
}

impl View for StreamMessage {
    type V = StreamMessageView;

    open spec fn view(&self) -> StreamMessageView {
        match self {
            StreamMessage::Create { receiver, tokens_per_sec } => StreamMessageView::Create {
                receiver: receiver@,
                tokens_per_sec: *tokens_per_sec,
            },
            StreamMessage::Deposit { stream_id } => StreamMessageView::Deposit {
                stream_id: stream_id@,
            },
        }
    }
}

/// The streaming dispatch an accounting step asks the host to issue: a
/// `ft_transfer_call(receiver, amount, message)` on the token service, with
/// a completion callback carrying `receiver` and `amount`.
#[derive(Debug, PartialEq)]
pub struct StreamAction {
    pub ft_contract: String,
    pub receiver: String,
    pub amount: u128,
    pub message: StreamMessage,
}

#[verifier::ext_equal]
pub struct StreamActionView {
    pub ft_contract: Seq<char>,
    pub receiver: Seq<char>,
    pub amount: u128,
    pub message: StreamMessageView,
}

impl View for StreamAction {
    type V = StreamActionView;

    open spec fn view(&self) -> StreamActionView {
        StreamActionView {
            ft_contract: self.ft_contract@,
            receiver: self.receiver@,
            amount: self.amount,
            message: self.message@,
        }
    }
}

} // verus!
