//! The bounds and codes that the ledger's rules are written with.

use vstd::prelude::*;
use crate::arith::Balance;

verus! {

/// The supply never exceeds half the range of a balance.
pub const MAX_SUPPLY: Balance = Balance::MAX / 2;

/// No single operation moves more than a tenth of the range of a balance.
pub const MAX_SINGLE_AMOUNT: Balance = Balance::MAX / 10;

/// A deposit or withdrawal above a thousandth of the range of a balance is suspicious.
pub const MAX_REASONABLE_AMOUNT: Balance = Balance::MAX / 1000;

/// More recorded transactions than this, early in the ledger's life, mark a bot.
pub const SUSPICIOUS_TRANSACTION_COUNT: u32 = 100;

/// How long after deployment the transaction count is held against a caller: one hour.
pub const EARLY_LIFE_MILLIS: u64 = 3_600_000;

/// The time that a new ledger makes a caller wait between two guarded operations.
pub const DEFAULT_COOLDOWN_MILLIS: u64 = 1000;

/// The execution budget under which a new ledger refuses guarded operations.
pub const DEFAULT_MAX_GAS_LIMIT: u64 = 1_000_000;

/// The number of decimal places in which amounts are displayed.
pub const DECIMALS: u8 = 8;

/// Alert: a guarded operation was entered while another was active.
pub const ALERT_REENTRANCY: u8 = 1;

/// Alert: the execution budget is under the minimum.
pub const ALERT_GAS_LIMIT: u8 = 2;

/// Alert: an amount above the limit for a single operation.
pub const ALERT_AMOUNT_TOO_LARGE: u8 = 3;

/// Alert: a caller came back before the cooldown had passed.
pub const ALERT_RATE_LIMIT: u8 = 4;

/// Alert: a caller with a suspicious number of transactions.
pub const ALERT_SUSPICIOUS_COUNT: u8 = 5;

/// Alert: a deposit or withdrawal of a suspicious amount.
pub const ALERT_SUSPICIOUS_AMOUNT: u8 = 6;

} // verus!
