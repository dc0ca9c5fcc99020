//! A cashback reward contract: records are created with a halved amount,
//! redeemed once against an Ed25519 signature over the record identifier,
//! and settled by a privileged accounting step that can convert accumulated
//! unpaid reward into a recurring token stream.  Every asynchronous payout
//! follows an optimistic-commit-then-compensate discipline: the affected
//! flag or balance is mutated before the call is dispatched, and a failure
//! callback is the only path that reverses it.

pub mod account_id;
pub mod accounts;
pub mod contract;
pub mod encode;
pub mod laws;
pub mod ledger;
pub mod sig;
pub mod types;

pub use contract::Contract;
pub use encode::u64_to_be_bytes;
pub use types::AccountActivity;
pub use types::Cashback;
pub use types::CashbackError;
pub use types::StreamAction;
pub use types::StreamMessage;
pub use types::TransferAction;
