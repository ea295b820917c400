//! A wrapped-token ledger pegged one to one to a custodial reserve.
//!
//! The ledger keeps balances, allowances and the issued supply, guards every
//! operation with identity, amount, rate and re-entrancy checks, and records
//! the notifications that each operation raises. The host supplies the caller,
//! the clock and the reserve with every call.

pub mod account;
pub mod arith;
pub mod error;
pub mod event;
pub mod host;
pub mod laws;
pub mod ledger;
pub mod limits;
pub mod model;
pub mod snapshot;
pub mod table;
pub mod total;

pub use account::AccountId;
pub use arith::Balance;
pub use error::Error;
pub use event::{Approval, Deposit, Event, SecurityAlert, Transfer, Withdrawal};
pub use host::{Env, Payout};
pub use ledger::Wlunes;
pub use snapshot::Snapshot;
