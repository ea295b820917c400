//! The notifications that the ledger raises for the host to publish.

use vstd::prelude::*;
use crate::account::AccountId;
use crate::arith::Balance;

verus! {

/// Tokens moved. No sender means they were minted, no receiver that they were burnt.
#[derive(Debug, Clone, Copy, PartialEq, Eq)]
pub struct Transfer {
    pub from: Option<AccountId>,
    pub to: Option<AccountId>,
    pub value: Balance,
}

/// An owner set the amount that a spender may move on the owner's behalf.
#[derive(Debug, Clone, Copy, PartialEq, Eq)]
pub struct Approval {
    pub owner: AccountId,
    pub spender: AccountId,
    pub value: Balance,
}

/// An account paid into the reserve and was credited.
#[derive(Debug, Clone, Copy, PartialEq, Eq)]
pub struct Deposit {
    pub account: AccountId,
    pub amount: Balance,
    pub timestamp: u64,
}

/// An account was debited and is owed a payout from the reserve.
#[derive(Debug, Clone, Copy, PartialEq, Eq)]
pub struct Withdrawal {
    pub account: AccountId,
    pub amount: Balance,
    pub timestamp: u64,
}

/// A security check refused an operation. `alert_type` is one of the `ALERT_` codes.
#[derive(Debug, Clone, Copy, PartialEq, Eq)]
pub struct SecurityAlert {
    pub alert_type: u8,
    pub account: AccountId,
    pub details: Balance,
}

/// A notification that the ledger hands to the host.
#[derive(Debug, Clone, Copy, PartialEq, Eq)]
pub enum Event {
    Transfer(Transfer),
    Approval(Approval),
    Deposit(Deposit),
    Withdrawal(Withdrawal),
    SecurityAlert(SecurityAlert),
}

} // verus!
