//! What holds of the ledger whatever calls are made: the peg, conservation of the
//! supply, the all-or-nothing rule, the exclusion of re-entrancy.

use vstd::prelude::*;
use crate::account::AccountId;
use crate::arith::Balance;
use crate::error::Error;
use crate::event::{Event, SecurityAlert};
use crate::host::Env;
use crate::limits::{ALERT_REENTRANCY, MAX_SINGLE_AMOUNT};
use crate::model;
use crate::model::State;
use crate::total::{
    lemma_sum_bounds_pair, lemma_sum_bounds_value, lemma_sum_empty, lemma_sum_insert,
};

verus! {

/// One call of the host into the ledger.
pub enum Call {
    Deposit { env: Env },
    Withdraw { env: Env, amount: Balance },
    SettleWithdrawal { paid: bool },
    Transfer { env: Env, to: AccountId, value: Balance },
    TransferFrom { env: Env, from: AccountId, to: AccountId, value: Balance },
    Approve { env: Env, spender: AccountId, value: Balance },
    Burn { env: Env, from: AccountId, value: Balance },
}

/// The ledger after one call.
pub open spec fn after(s: State, call: Call) -> State {
    match call {
        Call::Deposit { env } => model::deposit(s, env).state,
        Call::Withdraw { env, amount } => model::withdraw(s, env, amount).state,
        Call::SettleWithdrawal { paid } => model::settle_withdrawal(s, paid).state,
        Call::Transfer { env, to, value } => model::transfer(s, env, to, value).state,
        Call::TransferFrom { env, from, to, value } => {
            model::transfer_from(s, env, from, to, value).state
        },
        Call::Approve { env, spender, value } => model::approve(s, env, spender, value).state,
        Call::Burn { env, from, value } => model::burn(s, env, from, value).state,
    }
}

/// Whether a call takes effect rather than being refused.
pub open spec fn succeeds(s: State, call: Call) -> bool {
    match call {
        Call::Deposit { env } => model::deposit(s, env).result is Ok,
        Call::Withdraw { env, amount } => model::withdraw(s, env, amount).result is Ok,
        Call::SettleWithdrawal { paid } => model::settle_withdrawal(s, paid).result is Ok,
        Call::Transfer { env, to, value } => model::transfer(s, env, to, value).result is Ok,
        Call::TransferFrom { env, from, to, value } => {
            model::transfer_from(s, env, from, to, value).result is Ok
        },
        Call::Approve { env, spender, value } => model::approve(s, env, spender, value).result is Ok,
        Call::Burn { env, from, value } => model::burn(s, env, from, value).result is Ok,
    }
}

/// The error of a call that is refused.
pub open spec fn error_of(s: State, call: Call) -> Option<Error> {
    match call {
        Call::Deposit { env } => model::deposit(s, env).result.err(),
        Call::Withdraw { env, amount } => model::withdraw(s, env, amount).result.err(),
        Call::SettleWithdrawal { paid } => model::settle_withdrawal(s, paid).result.err(),
        Call::Transfer { env, to, value } => model::transfer(s, env, to, value).result.err(),
        Call::TransferFrom { env, from, to, value } => {
            model::transfer_from(s, env, from, to, value).result.err()
        },
        Call::Approve { env, spender, value } => model::approve(s, env, spender, value).result.err(),
        Call::Burn { env, from, value } => model::burn(s, env, from, value).result.err(),
    }
}

/// The ledger after a sequence of calls, made in order.
pub open spec fn after_all(s: State, calls: Seq<Call>) -> State
    decreases calls.len(),
{
    if calls.len() == 0 {
        s
    } else {
        after(after_all(s, calls.drop_last()), calls.last())
    }
}

/// A new ledger is pegged.
pub proof fn law_initial_pegged(deployment_timestamp: u64, isolated: bool)
    ensures
        model::initial(deployment_timestamp, isolated).pegged(),
{
    lemma_sum_empty::<AccountId>();
}

/// No call breaks the peg: after it the supply is still the sum of all balances and
/// within its bound.
pub proof fn law_peg_preserved(s: State, call: Call)
    requires
        s.pegged(),
    ensures
        after(s, call).pegged(),
{
    match call {
        Call::Deposit { env } => {
            if model::deposit(s, env).result is Ok {
                lemma_sum_bounds_value(s.balances, env.caller);
                lemma_sum_insert(
                    s.balances,
                    env.caller,
                    (s.balance_of(env.caller) + env.transferred_value) as Balance,
                );
            }
        },
        Call::Withdraw { env, amount } => {
            if model::withdraw(s, env, amount).result is Ok {
                lemma_sum_bounds_value(s.balances, env.caller);
                lemma_sum_insert(
                    s.balances,
                    env.caller,
                    (s.balance_of(env.caller) - amount) as Balance,
                );
            }
        },
        Call::SettleWithdrawal { paid } => {},
        Call::Transfer { env, to, value } => {
            if model::transfer(s, env, to, value).result is Ok {
                lemma_movement_keeps_sum(s, env.caller, to, value);
            }
        },
        Call::TransferFrom { env, from, to, value } => {
            if model::transfer_from(s, env, from, to, value).result is Ok {
                lemma_movement_keeps_sum(model::spent(s, from, env.caller, value), from, to, value);
            }
        },
        Call::Approve { env, spender, value } => {},
        Call::Burn { env, from, value } => {
            if model::burn(s, env, from, value).result is Ok {
                lemma_sum_bounds_value(s.balances, from);
                lemma_sum_insert(s.balances, from, (s.balance_of(from) - value) as Balance);
            }
        },
    }
}

/// Moving an amount that the sender holds leaves the sum of all balances as it was, and
/// neither balance leaves its range.
pub proof fn lemma_movement_keeps_sum(s: State, from: AccountId, to: AccountId, value: Balance)
    requires
        s.pegged(),
        from != to ==> s.balance_of(from) >= value,
    ensures
        model::moved(s, from, to, value).pegged(),
        from != to ==> s.balance_of(to) + value <= s.total_supply,
{
    if from != to {
        let debited = s.balances.insert(from, (s.balance_of(from) - value) as Balance);
        lemma_sum_bounds_pair(s.balances, from, to);
        lemma_sum_insert(s.balances, from, (s.balance_of(from) - value) as Balance);
        lemma_sum_insert(debited, to, (s.balance_of(to) + value) as Balance);
    }
}

/// Every state that a new ledger can reach is pegged: the supply is the sum of all
/// balances and within its bound, whatever calls were made.
pub proof fn law_reachable_pegged(deployment_timestamp: u64, isolated: bool, calls: Seq<Call>)
    ensures
        after_all(model::initial(deployment_timestamp, isolated), calls).pegged(),
    decreases calls.len(),
{
    if calls.len() == 0 {
        law_initial_pegged(deployment_timestamp, isolated);
    } else {
        law_reachable_pegged(deployment_timestamp, isolated, calls.drop_last());
        law_peg_preserved(
            after_all(model::initial(deployment_timestamp, isolated), calls.drop_last()),
            calls.last(),
        );
    }
}

/// Whether a call checks the supply against the reserve: every call that moves, mints
/// or burns tokens does, but not one that moves tokens from an account to itself.
pub open spec fn checks_reserve(call: Call) -> bool {
    match call {
        Call::Deposit { env } => true,
        Call::Withdraw { env, amount } => true,
        Call::Burn { env, from, value } => true,
        Call::Transfer { env, to, value } => env.caller != to,
        Call::TransferFrom { env, from, to, value } => from != to,
        Call::SettleWithdrawal { paid } => false,
        Call::Approve { env, spender, value } => false,
    }
}

/// The reserve that the host reported with a call.
pub open spec fn reserve_of(call: Call) -> Balance
    recommends
        !(call is SettleWithdrawal),
{
    match call {
        Call::Deposit { env } => env.balance,
        Call::Withdraw { env, amount } => env.balance,
        Call::Burn { env, from, value } => env.balance,
        Call::Transfer { env, to, value } => env.balance,
        Call::TransferFrom { env, from, to, value } => env.balance,
        Call::Approve { env, spender, value } => env.balance,
        Call::SettleWithdrawal { paid } => 0,
    }
}

/// On a live ledger, a call that moves, mints or burns tokens takes effect only where
/// the supply it leaves equals the reserve that the host reported.
pub proof fn law_live_supply_is_reserve(s: State, call: Call)
    requires
        s.pegged(),
        !s.isolated,
        succeeds(s, call),
        checks_reserve(call),
    ensures
        after(s, call).total_supply == reserve_of(call),
{
    match call {
        Call::Withdraw { env, amount } => {
            lemma_sum_bounds_value(s.balances, env.caller);
        },
        Call::Burn { env, from, value } => {
            lemma_sum_bounds_value(s.balances, from);
        },
        _ => {},
    }
}

/// `amount` where the call takes effect, nothing where it is refused.
pub open spec fn if_it_succeeds(s: State, call: Call, amount: Balance) -> int {
    if succeeds(s, call) {
        amount as int
    } else {
        0
    }
}

/// Conservation: a deposit that takes effect raises the supply by exactly the value that
/// came with it, a withdrawal or a burn that takes effect lowers it by exactly the amount
/// asked for, and nothing else changes the supply.
pub proof fn law_conservation(s: State, call: Call)
    requires
        s.pegged(),
    ensures
        after(s, call).total_supply == s.total_supply + match call {
            Call::Deposit { env } => if_it_succeeds(s, call, env.transferred_value),
            Call::Withdraw { env, amount } => -if_it_succeeds(s, call, amount),
            Call::Burn { env, from, value } => -if_it_succeeds(s, call, value),
            Call::SettleWithdrawal { paid } => 0,
            Call::Transfer { env, to, value } => 0,
            Call::TransferFrom { env, from, to, value } => 0,
            Call::Approve { env, spender, value } => 0,
        },
{
    match call {
        Call::Withdraw { env, amount } => {
            lemma_sum_bounds_value(s.balances, env.caller);
        },
        Call::Burn { env, from, value } => {
            lemma_sum_bounds_value(s.balances, from);
        },
        _ => {},
    }
}

/// What is once in the books stays there: no call removes the entry of an account, of an
/// allowance or of the rate limiter. An entry can only come to hold zero.
pub proof fn law_entries_stay(s: State, call: Call)
    ensures
        s.balances.dom().subset_of(after(s, call).balances.dom()),
        s.allowances.dom().subset_of(after(s, call).allowances.dom()),
        s.last_transaction.dom().subset_of(after(s, call).last_transaction.dom()),
        s.transaction_count.dom().subset_of(after(s, call).transaction_count.dom()),
{
}

/// No call changes the configuration with which the ledger was made.
pub proof fn law_configuration_is_fixed(s: State, call: Call)
    ensures
        after(s, call).max_gas_limit == s.max_gas_limit,
        after(s, call).deployment_timestamp == s.deployment_timestamp,
        after(s, call).transaction_cooldown == s.transaction_cooldown,
        after(s, call).isolated == s.isolated,
{
}

/// A refused call changes nothing: no balance, no allowance, not the supply. Only the end
/// of a withdrawal, which reports a failed payout, releases the guard as it does so.
pub proof fn law_refusal_changes_nothing(s: State, call: Call)
    requires
        !succeeds(s, call),
    ensures
        call is SettleWithdrawal ==> after(s, call) == (State { reentrancy_guard: false, ..s }),
        !(call is SettleWithdrawal) ==> after(s, call) == s,
{
}

/// No call is refused for overflow.
pub proof fn law_no_overflow(s: State, call: Call)
    requires
        s.pegged(),
    ensures
        error_of(s, call) != Some(Error::Overflow),
{
}

/// No call that takes effect leaves a balance or an allowance out of range: what is
/// credited is added and what is debited is subtracted, exactly.
pub proof fn law_amounts_are_exact(s: State, call: Call)
    requires
        s.pegged(),
        succeeds(s, call),
    ensures
        match call {
            Call::Deposit { env } => {
                after(s, call).balance_of(env.caller) == s.balance_of(env.caller)
                    + env.transferred_value
            },
            Call::Withdraw { env, amount } => {
                after(s, call).balance_of(env.caller) == s.balance_of(env.caller) - amount
            },
            Call::Burn { env, from, value } => {
                &&& after(s, call).balance_of(from) == s.balance_of(from) - value
                &&& from != env.caller ==> after(s, call).allowance(from, env.caller)
                    == s.allowance(from, env.caller) - value
            },
            Call::Transfer { env, to, value } => env.caller != to ==> {
                &&& after(s, call).balance_of(env.caller) == s.balance_of(env.caller) - value
                &&& after(s, call).balance_of(to) == s.balance_of(to) + value
            },
            Call::TransferFrom { env, from, to, value } => {
                &&& after(s, call).allowance(from, env.caller) == s.allowance(from, env.caller)
                    - value
                &&& from != to ==> {
                    &&& after(s, call).balance_of(from) == s.balance_of(from) - value
                    &&& after(s, call).balance_of(to) == s.balance_of(to) + value
                }
            },
            Call::Approve { env, spender, value } => {
                after(s, call).allowance(env.caller, spender) == value
            },
            Call::SettleWithdrawal { paid } => true,
        },
{
    match call {
        Call::Deposit { env } => {
            lemma_sum_bounds_value(s.balances, env.caller);
        },
        Call::Transfer { env, to, value } => {
            lemma_movement_keeps_sum(s, env.caller, to, value);
        },
        Call::TransferFrom { env, from, to, value } => {
            lemma_movement_keeps_sum(model::spent(s, from, env.caller, value), from, to, value);
        },
        _ => {},
    }
}

/// A debit: the account that pays and how much.
pub struct Debit {
    pub account: AccountId,
    pub amount: Balance,
}

/// The debit that a call asks for. A call that moves tokens from an account to itself
/// asks for none.
pub open spec fn debit_of(call: Call) -> Option<Debit> {
    match call {
        Call::Withdraw { env, amount } => Some(Debit { account: env.caller, amount }),
        Call::Burn { env, from, value } => Some(Debit { account: from, amount: value }),
        Call::Transfer { env, to, value } => if env.caller != to {
            Some(Debit { account: env.caller, amount: value })
        } else {
            None
        },
        Call::TransferFrom { env, from, to, value } => if from != to {
            Some(Debit { account: from, amount: value })
        } else {
            None
        },
        Call::Deposit { env } => None,
        Call::SettleWithdrawal { paid } => None,
        Call::Approve { env, spender, value } => None,
    }
}

/// What the checks that come before the check of the balance have against a call.
pub open spec fn earlier_refusal(s: State, call: Call) -> Option<model::Rejection> {
    match call {
        Call::Withdraw { env, amount } => if s.reentrancy_guard {
            model::reentrancy_refusal(env)
        } else if amount == 0 {
            model::quiet(Error::ZeroAmount)
        } else {
            model::or_else(
                model::context_refusal(s, env, amount),
                model::amount_refusal(env, amount),
            )
        },
        Call::Burn { env, from, value } => if value == 0 {
            model::quiet(Error::ZeroAmount)
        } else {
            model::or_else(model::null_refusal(from), model::null_refusal(env.caller))
        },
        Call::Transfer { env, to, value } => model::or_else(
            model::or_else(model::null_refusal(env.caller), model::null_refusal(to)),
            model::or_else(
                model::amount_refusal(env, value),
                if value == 0 {
                    model::quiet(Error::ZeroAmount)
                } else {
                    None
                },
            ),
        ),
        Call::TransferFrom { env, from, to, value } => {
            if env.caller.is_null() || from.is_null() || to.is_null() {
                model::quiet(Error::ZeroAddress)
            } else if model::amount_refusal(env, value) is Some {
                model::amount_refusal(env, value)
            } else if s.allowance(from, env.caller) < value {
                model::quiet(Error::InsufficientAllowance)
            } else if value == 0 {
                model::quiet(Error::ZeroAmount)
            } else {
                None
            }
        },
        Call::Deposit { env } => None,
        Call::SettleWithdrawal { paid } => None,
        Call::Approve { env, spender, value } => None,
    }
}

/// A call that would debit an account by more than it holds is refused and so changes
/// nothing. Where the checks that come before find nothing, the error is
/// `InsufficientBalance`; where one of them does, the error is that check's.
pub proof fn law_no_negative_balance(s: State, call: Call)
    requires
        debit_of(call) is Some,
        s.balance_of(debit_of(call)->0.account) < debit_of(call)->0.amount,
    ensures
        !succeeds(s, call),
        after(s, call) == s,
        error_of(s, call) == match earlier_refusal(s, call) {
            Some(rejection) => Some(rejection.error),
            None => Some(Error::InsufficientBalance),
        },
{
}

/// Re-entrancy is excluded: a deposit or a withdrawal that finds the guard set, whoever
/// makes it, is refused with `ReentrancyDetected` and an alert, and changes nothing.
pub proof fn law_reentrancy_excluded(s: State, env: Env, amount: Balance)
    requires
        s.reentrancy_guard,
    ensures
        model::deposit(s, env).result == Err::<(), Error>(Error::ReentrancyDetected),
        model::deposit(s, env).state == s,
        model::deposit(s, env).events == seq![
            Event::SecurityAlert(
                SecurityAlert { alert_type: ALERT_REENTRANCY, account: env.caller, details: 0 },
            ),
        ],
        model::withdraw(s, env, amount).result is Err,
        model::withdraw(s, env, amount).result->Err_0 == Error::ReentrancyDetected,
        model::withdraw(s, env, amount).state == s,
        model::withdraw(s, env, amount).events == model::deposit(s, env).events,
{
}

/// The guard is released: a call that finds the guard clear leaves it clear, whether it
/// takes effect or not. The one exception is a withdrawal that takes effect, which holds
/// the guard for the payout; the end of the withdrawal then releases it, paid or not.
pub proof fn law_guard_released(s: State, call: Call, paid: bool)
    requires
        !s.reentrancy_guard,
    ensures
        !(call is Withdraw && succeeds(s, call)) ==> !after(s, call).reentrancy_guard,
        call is Withdraw && succeeds(s, call) ==> {
            &&& after(s, call).reentrancy_guard
            &&& !model::settle_withdrawal(after(s, call), paid).state.reentrancy_guard
        },
{
}

/// A caller who transfers a positive amount within the limit to itself succeeds, and
/// nothing changes and nothing is notified, whatever the caller holds.
pub proof fn law_self_transfer_is_noop(s: State, env: Env, value: Balance)
    requires
        !env.caller.is_null(),
        0 < value <= MAX_SINGLE_AMOUNT,
    ensures
        model::transfer(s, env, env.caller, value).result == Ok::<(), Error>(()),
        model::transfer(s, env, env.caller, value).state == s,
        model::transfer(s, env, env.caller, value).events == Seq::<Event>::empty(),
{
}

} // verus!
