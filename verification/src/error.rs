//! The errors with which the ledger refuses an operation.

use vstd::prelude::*;

verus! {

/// Why an operation was refused. Every refusal leaves the ledger as it was.
#[derive(Debug, Clone, Copy, PartialEq, Eq, Structural)]
pub enum Error {
    /// The account holds less than the amount asked for.
    InsufficientBalance,
    /// The spender's allowance is less than the amount asked for.
    InsufficientAllowance,
    /// An addition or subtraction left the range of a balance.
    Overflow,
    /// The amount is zero.
    ZeroAmount,
    /// An account is the null account.
    ZeroAddress,
    /// The supply would leave its bounds, part from the reserve, or the
    /// request contradicts itself.
    InvalidState,
    /// A guarded operation was entered while another one was active.
    ReentrancyDetected,
    /// The host's remaining execution budget is under the configured minimum.
    GasLimitExceeded,
    /// The amount exceeds what a single operation may move.
    AmountTooLarge,
    /// The caller is rate limited or shows a suspicious pattern.
    OperationBlocked,
}

} // verus!
