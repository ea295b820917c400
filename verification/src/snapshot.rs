//! The ledger as plain data.

use vstd::prelude::*;
use crate::account::AccountId;
use crate::arith::Balance;
use crate::model::State;
use crate::table::{distinct_keys, entries_map};

verus! {

/// The ledger as plain data, in which the host keeps it between calls.
/// Each list holds the entries of one of the ledger's maps.
#[derive(Debug, PartialEq, Eq)]
pub struct Snapshot {
    pub total_supply: Balance,
    pub balances: Vec<(AccountId, Balance)>,
    pub allowances: Vec<((AccountId, AccountId), Balance)>,
    pub reentrancy_guard: bool,
    pub max_gas_limit: u64,
    pub deployment_timestamp: u64,
    pub last_transaction: Vec<(AccountId, u64)>,
    pub transaction_cooldown: u64,
    pub transaction_count: Vec<(AccountId, u32)>,
    pub isolated: bool,
}

impl Snapshot {
    /// The ledger that the snapshot stands for.
    pub open spec fn state(&self) -> State {
        State {
            total_supply: self.total_supply,
            balances: entries_map(self.balances@),
            allowances: entries_map(self.allowances@),
            reentrancy_guard: self.reentrancy_guard,
            max_gas_limit: self.max_gas_limit,
            deployment_timestamp: self.deployment_timestamp,
            last_transaction: entries_map(self.last_transaction@),
            transaction_cooldown: self.transaction_cooldown,
            transaction_count: entries_map(self.transaction_count@),
            isolated: self.isolated,
        }
    }

    /// The snapshot is one of a ledger: no list holds a key twice, and the supply is the
    /// sum of the balances and within its bound.
    pub open spec fn valid(&self) -> bool {
        &&& distinct_keys(self.balances@)
        &&& distinct_keys(self.allowances@)
        &&& distinct_keys(self.last_transaction@)
        &&& distinct_keys(self.transaction_count@)
        &&& self.state().pegged()
    }
}

} // verus!
