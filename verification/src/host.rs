//! What passes between the host and the ledger with each call.

use vstd::prelude::*;
use crate::account::AccountId;
use crate::arith::Balance;

verus! {

/// What the host tells the ledger about the call that is being served.
#[derive(Debug, Clone, Copy, PartialEq, Eq)]
pub struct Env {
    /// Who makes the call.
    pub caller: AccountId,
    /// The host's clock, in milliseconds.
    pub block_timestamp: u64,
    /// The value that came with the call; read by `deposit` alone.
    pub transferred_value: Balance,
    /// The reserve that the host holds for the ledger, the value that came with the call included.
    pub balance: Balance,
    /// The execution budget that is left to the call.
    pub gas_left: u64,
}

/// The instruction to pay `amount` out of the reserve to `to`.
#[derive(Debug, Clone, Copy, PartialEq, Eq)]
pub struct Payout {
    pub to: AccountId,
    pub amount: Balance,
}

} // verus!
