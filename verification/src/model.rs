//! The ledger as a state machine over mathematical values. Each operation is given
//! by what stands against it, checked in a fixed order, by the state it leaves and by
//! what it notifies. The executable ledger is proved to do exactly this.

use vstd::prelude::*;
use crate::account::AccountId;
use crate::arith::Balance;
use crate::error::Error;
use crate::event::{Approval, Deposit, Event, SecurityAlert, Transfer, Withdrawal};
use crate::host::{Env, Payout};
use crate::limits::{
    ALERT_AMOUNT_TOO_LARGE, ALERT_GAS_LIMIT, ALERT_RATE_LIMIT, ALERT_REENTRANCY,
    ALERT_SUSPICIOUS_AMOUNT, ALERT_SUSPICIOUS_COUNT, DEFAULT_COOLDOWN_MILLIS,
    DEFAULT_MAX_GAS_LIMIT, EARLY_LIFE_MILLIS, MAX_REASONABLE_AMOUNT, MAX_SINGLE_AMOUNT, MAX_SUPPLY,
    SUSPICIOUS_TRANSACTION_COUNT,
};
use crate::total::{sum_of, value_or_zero};

verus! {

/// The ledger as a mathematical value: what every operation reads and changes.
#[verifier::ext_equal]
pub struct State {
    /// The tokens in circulation.
    pub total_supply: Balance,
    /// What each account holds. An account without an entry holds nothing.
    pub balances: Map<AccountId, Balance>,
    /// What each spender may still move for each owner, keyed by owner and spender.
    pub allowances: Map<(AccountId, AccountId), Balance>,
    /// Set while a guarded operation is active.
    pub reentrancy_guard: bool,
    /// The execution budget under which guarded operations are refused.
    pub max_gas_limit: u64,
    /// When the ledger was made.
    pub deployment_timestamp: u64,
    /// When each account last passed the rate limiter. Without an entry: at time zero.
    pub last_transaction: Map<AccountId, u64>,
    /// How long an account waits between two guarded operations.
    pub transaction_cooldown: u64,
    /// How often each account passed the rate limiter.
    pub transaction_count: Map<AccountId, u32>,
    /// Whether the ledger runs apart from a live host: then it keeps no rate records and
    /// checks neither the execution budget nor the reserve.
    pub isolated: bool,
}

impl State {
    /// What `owner` holds.
    pub open spec fn balance_of(self, owner: AccountId) -> Balance {
        value_or_zero(self.balances, owner)
    }

    /// What `spender` may still move on behalf of `owner`.
    pub open spec fn allowance(self, owner: AccountId, spender: AccountId) -> Balance {
        value_or_zero(self.allowances, (owner, spender))
    }

    /// When `account` last passed the rate limiter.
    pub open spec fn last_transaction_of(self, account: AccountId) -> u64 {
        if self.last_transaction.dom().contains(account) {
            self.last_transaction[account]
        } else {
            0
        }
    }

    /// How often `account` passed the rate limiter.
    pub open spec fn transaction_count_of(self, account: AccountId) -> u32 {
        if self.transaction_count.dom().contains(account) {
            self.transaction_count[account]
        } else {
            0
        }
    }

    /// The peg: the supply is the sum of all balances and stays within its bound.
    pub open spec fn pegged(self) -> bool {
        &&& self.balances.dom().finite()
        &&& self.total_supply == sum_of(self.balances)
        &&& self.total_supply <= MAX_SUPPLY
    }
}

/// The state of a new ledger.
pub open spec fn initial(deployment_timestamp: u64, isolated: bool) -> State {
    State {
        total_supply: 0,
        balances: Map::empty(),
        allowances: Map::empty(),
        reentrancy_guard: false,
        max_gas_limit: DEFAULT_MAX_GAS_LIMIT,
        deployment_timestamp,
        last_transaction: Map::empty(),
        transaction_cooldown: DEFAULT_COOLDOWN_MILLIS,
        transaction_count: Map::empty(),
        isolated,
    }
}

/// A refusal: the error that the caller gets and the alert that is raised with it.
#[derive(Debug, Clone, Copy)]
pub struct Rejection {
    pub error: Error,
    pub alert: Option<SecurityAlert>,
}

/// A refusal that raises no alert.
pub open spec fn quiet(error: Error) -> Option<Rejection> {
    Some(Rejection { error, alert: None })
}

/// A refusal that raises an alert about `account`.
pub open spec fn alarm(
    error: Error,
    alert_type: u8,
    account: AccountId,
    details: Balance,
) -> Option<Rejection> {
    Some(Rejection { error, alert: Some(SecurityAlert { alert_type, account, details }) })
}

/// The first refusal of two checks made in turn.
pub open spec fn or_else(first: Option<Rejection>, second: Option<Rejection>) -> Option<Rejection> {
    if first is Some {
        first
    } else {
        second
    }
}

/// A check's answer as a result: the refusal is the error.
pub open spec fn verdict(refusal: Option<Rejection>) -> Result<(), Rejection> {
    match refusal {
        Some(rejection) => Err(rejection),
        None => Ok(()),
    }
}

/// The time from `earlier` to `later`, zero where `later` comes first.
pub open spec fn elapsed(earlier: u64, later: u64) -> u64 {
    if later >= earlier {
        (later - earlier) as u64
    } else {
        0
    }
}

/// The null account takes part in nothing.
pub open spec fn null_refusal(account: AccountId) -> Option<Rejection> {
    if account.is_null() {
        quiet(Error::ZeroAddress)
    } else {
        None
    }
}

/// A live ledger refuses a call whose execution budget is under the minimum.
pub open spec fn gas_refusal(s: State, env: Env) -> Option<Rejection> {
    if !s.isolated && env.gas_left < s.max_gas_limit {
        alarm(Error::GasLimitExceeded, ALERT_GAS_LIMIT, env.caller, env.gas_left as Balance)
    } else {
        None
    }
}

/// A live ledger refuses a caller who comes back before the cooldown has passed.
pub open spec fn rate_refusal(s: State, env: Env) -> Option<Rejection> {
    let last = s.last_transaction_of(env.caller);
    if !s.isolated && env.block_timestamp < last + s.transaction_cooldown {
        alarm(
            Error::OperationBlocked,
            ALERT_RATE_LIMIT,
            env.caller,
            elapsed(last, env.block_timestamp) as Balance,
        )
    } else {
        None
    }
}

/// The caller's transaction count once this call is counted: one more on a live ledger,
/// unless the count is at its maximum.
pub open spec fn counted(s: State, env: Env) -> u32 {
    let count = s.transaction_count_of(env.caller);
    if !s.isolated && count < u32::MAX {
        (count + 1) as u32
    } else {
        count
    }
}

/// The rate limiter's records once this call has passed: none on an isolated ledger.
pub open spec fn recorded(s: State, env: Env) -> State {
    if s.isolated {
        s
    } else {
        State {
            last_transaction: s.last_transaction.insert(env.caller, env.block_timestamp),
            transaction_count: s.transaction_count.insert(env.caller, counted(s, env)),
            ..s
        }
    }
}

/// Too many transactions early in the ledger's life, or an amount beyond reason.
pub open spec fn pattern_refusal(s: State, env: Env, amount: Balance) -> Option<Rejection> {
    let count = counted(s, env);
    if count > SUSPICIOUS_TRANSACTION_COUNT && elapsed(s.deployment_timestamp, env.block_timestamp)
        < EARLY_LIFE_MILLIS {
        alarm(Error::OperationBlocked, ALERT_SUSPICIOUS_COUNT, env.caller, count as Balance)
    } else if amount > MAX_REASONABLE_AMOUNT {
        alarm(Error::AmountTooLarge, ALERT_SUSPICIOUS_AMOUNT, env.caller, amount)
    } else {
        None
    }
}

/// No single operation moves more than the limit.
pub open spec fn amount_refusal(env: Env, amount: Balance) -> Option<Rejection> {
    if amount > MAX_SINGLE_AMOUNT {
        alarm(Error::AmountTooLarge, ALERT_AMOUNT_TOO_LARGE, env.caller, amount)
    } else {
        None
    }
}

/// The checks on the caller of a deposit or withdrawal, in the order in which they are made.
pub open spec fn context_refusal(s: State, env: Env, amount: Balance) -> Option<Rejection> {
    or_else(
        null_refusal(env.caller),
        or_else(gas_refusal(s, env), or_else(rate_refusal(s, env), pattern_refusal(s, env, amount))),
    )
}

/// The supply must stay within its bound and, on a live ledger, equal the reserve.
pub open spec fn supply_refusal(s: State, env: Env, total_supply: int) -> Option<Rejection> {
    if total_supply > MAX_SUPPLY || (!s.isolated && env.balance != total_supply) {
        quiet(Error::InvalidState)
    } else {
        None
    }
}

/// The refusal of a call that finds the guard set.
pub open spec fn reentrancy_refusal(env: Env) -> Option<Rejection> {
    alarm(Error::ReentrancyDetected, ALERT_REENTRANCY, env.caller, 0)
}

/// What an operation comes to: its result, the ledger after it, and what it notifies.
pub struct Step<T> {
    pub result: Result<T, Error>,
    pub state: State,
    pub events: Seq<Event>,
}

/// What a refusal notifies: its alert, if it has one.
pub open spec fn raised(rejection: Rejection) -> Seq<Event> {
    match rejection.alert {
        Some(alert) => seq![Event::SecurityAlert(alert)],
        None => Seq::empty(),
    }
}

/// A refused operation: the ledger stays as it was and only the alert, if any, goes out.
pub open spec fn refused<T>(s: State, rejection: Rejection) -> Step<T> {
    Step { result: Err(rejection.error), state: s, events: raised(rejection) }
}

/// An operation that either is refused or takes effect.
pub open spec fn step<T>(
    s: State,
    refusal: Option<Rejection>,
    value: T,
    state: State,
    events: Seq<Event>,
) -> Step<T> {
    match refusal {
        Some(rejection) => refused(s, rejection),
        None => Step { result: Ok(value), state, events },
    }
}

// ---- deposit ----

/// What stands against a deposit once the guard is taken.
pub open spec fn deposit_checks(s: State, env: Env) -> Option<Rejection> {
    let amount = env.transferred_value;
    if amount == 0 {
        quiet(Error::ZeroAmount)
    } else if context_refusal(s, env, amount) is Some {
        context_refusal(s, env, amount)
    } else if amount_refusal(env, amount) is Some {
        amount_refusal(env, amount)
    } else {
        supply_refusal(s, env, s.total_supply + amount)
    }
}

/// The ledger after a deposit: the caller and the supply have the value that came with the call.
pub open spec fn deposited(s: State, env: Env) -> State {
    let amount = env.transferred_value;
    State {
        total_supply: (s.total_supply + amount) as Balance,
        balances: s.balances.insert(env.caller, (s.balance_of(env.caller) + amount) as Balance),
        ..recorded(s, env)
    }
}

/// What a deposit notifies: the minting and the deposit.
pub open spec fn deposit_events(env: Env) -> Seq<Event> {
    seq![
        Event::Transfer(Transfer { from: None, to: Some(env.caller), value: env.transferred_value }),
        Event::Deposit(
            Deposit {
                account: env.caller,
                amount: env.transferred_value,
                timestamp: env.block_timestamp,
            },
        ),
    ]
}

/// A deposit of the value that came with the call.
pub open spec fn deposit(s: State, env: Env) -> Step<()> {
    let refusal = if s.reentrancy_guard {
        reentrancy_refusal(env)
    } else {
        deposit_checks(s, env)
    };
    step(s, refusal, (), deposited(s, env), deposit_events(env))
}

// ---- withdraw ----

/// What stands against a withdrawal once the guard is taken.
pub open spec fn withdraw_checks(s: State, env: Env, amount: Balance) -> Option<Rejection> {
    if amount == 0 {
        quiet(Error::ZeroAmount)
    } else if context_refusal(s, env, amount) is Some {
        context_refusal(s, env, amount)
    } else if amount_refusal(env, amount) is Some {
        amount_refusal(env, amount)
    } else if s.balance_of(env.caller) < amount || env.balance < amount {
        quiet(Error::InsufficientBalance)
    } else {
        supply_refusal(s, env, s.total_supply - amount)
    }
}

/// The ledger after the bookkeeping of a withdrawal: the caller and the supply are debited.
pub open spec fn withdrawn(s: State, env: Env, amount: Balance) -> State {
    State {
        total_supply: (s.total_supply - amount) as Balance,
        balances: s.balances.insert(env.caller, (s.balance_of(env.caller) - amount) as Balance),
        ..recorded(s, env)
    }
}

/// What a withdrawal notifies: the burning and the withdrawal.
pub open spec fn withdraw_events(env: Env, amount: Balance) -> Seq<Event> {
    seq![
        Event::Transfer(Transfer { from: Some(env.caller), to: None, value: amount }),
        Event::Withdrawal(
            Withdrawal { account: env.caller, amount, timestamp: env.block_timestamp },
        ),
    ]
}

/// A withdrawal up to the payout. Where it takes effect the guard stays set until the payout
/// is settled.
pub open spec fn withdraw(s: State, env: Env, amount: Balance) -> Step<Payout> {
    let refusal = if s.reentrancy_guard {
        reentrancy_refusal(env)
    } else {
        withdraw_checks(s, env, amount)
    };
    step(
        s,
        refusal,
        Payout { to: env.caller, amount },
        State { reentrancy_guard: true, ..withdrawn(s, env, amount) },
        withdraw_events(env, amount),
    )
}

/// The end of a withdrawal: the guard is released, and a failed payout is an error.
pub open spec fn settle_withdrawal(s: State, paid: bool) -> Step<()> {
    Step {
        result: if paid {
            Ok(())
        } else {
            Err(Error::InvalidState)
        },
        state: State { reentrancy_guard: false, ..s },
        events: Seq::empty(),
    }
}

// ---- transfer ----

/// What stands against moving `value` from `from` to `to`. Moving to oneself is never refused
/// for want of balance or of reserve: nothing moves.
pub open spec fn movement_refusal(
    s: State,
    env: Env,
    from: AccountId,
    to: AccountId,
    value: Balance,
) -> Option<Rejection> {
    if value == 0 {
        quiet(Error::ZeroAmount)
    } else if from == to {
        None
    } else if s.balance_of(from) < value {
        quiet(Error::InsufficientBalance)
    } else {
        supply_refusal(s, env, s.total_supply as int)
    }
}

/// The ledger after `value` has moved from `from` to `to`.
pub open spec fn moved(s: State, from: AccountId, to: AccountId, value: Balance) -> State {
    if from == to {
        s
    } else {
        State {
            balances: s.balances.insert(from, (s.balance_of(from) - value) as Balance).insert(
                to,
                (s.balance_of(to) + value) as Balance,
            ),
            ..s
        }
    }
}

/// What a movement notifies: nothing where an account pays itself.
pub open spec fn movement_events(from: AccountId, to: AccountId, value: Balance) -> Seq<Event> {
    if from == to {
        Seq::empty()
    } else {
        seq![Event::Transfer(Transfer { from: Some(from), to: Some(to), value })]
    }
}

/// A transfer from the caller to `to`.
pub open spec fn transfer(s: State, env: Env, to: AccountId, value: Balance) -> Step<()> {
    let from = env.caller;
    let refusal = or_else(
        null_refusal(from),
        or_else(
            null_refusal(to),
            or_else(amount_refusal(env, value), movement_refusal(s, env, from, to, value)),
        ),
    );
    step(s, refusal, (), moved(s, from, to, value), movement_events(from, to, value))
}

// ---- transfer_from ----

/// What stands against the caller moving `value` from `from` to `to`.
pub open spec fn transfer_from_refusal(
    s: State,
    env: Env,
    from: AccountId,
    to: AccountId,
    value: Balance,
) -> Option<Rejection> {
    if env.caller.is_null() || from.is_null() || to.is_null() {
        quiet(Error::ZeroAddress)
    } else if amount_refusal(env, value) is Some {
        amount_refusal(env, value)
    } else if s.allowance(from, env.caller) < value {
        quiet(Error::InsufficientAllowance)
    } else {
        movement_refusal(s, env, from, to, value)
    }
}

/// The ledger after `spender` has used `value` of the allowance that `owner` gave.
pub open spec fn spent(s: State, owner: AccountId, spender: AccountId, value: Balance) -> State {
    State {
        allowances: s.allowances.insert(
            (owner, spender),
            (s.allowance(owner, spender) - value) as Balance,
        ),
        ..s
    }
}

/// A transfer from `from` to `to` on the caller's allowance.
pub open spec fn transfer_from(
    s: State,
    env: Env,
    from: AccountId,
    to: AccountId,
    value: Balance,
) -> Step<()> {
    step(
        s,
        transfer_from_refusal(s, env, from, to, value),
        (),
        moved(spent(s, from, env.caller, value), from, to, value),
        movement_events(from, to, value),
    )
}

// ---- approve ----

/// What stands against the caller's approval of `spender`.
pub open spec fn approve_refusal(
    env: Env,
    spender: AccountId,
    value: Balance,
) -> Option<Rejection> {
    if env.caller.is_null() || spender.is_null() {
        quiet(Error::ZeroAddress)
    } else if value > 0 && env.caller == spender {
        quiet(Error::InvalidState)
    } else {
        None
    }
}

/// An approval: the caller's allowance for `spender` becomes `value`, whatever it was.
pub open spec fn approve(s: State, env: Env, spender: AccountId, value: Balance) -> Step<()> {
    step(
        s,
        approve_refusal(env, spender, value),
        (),
        State { allowances: s.allowances.insert((env.caller, spender), value), ..s },
        seq![Event::Approval(Approval { owner: env.caller, spender, value })],
    )
}

// ---- burn ----

/// What stands against the caller burning `value` of what `from` holds.
pub open spec fn burn_refusal(
    s: State,
    env: Env,
    from: AccountId,
    value: Balance,
) -> Option<Rejection> {
    if value == 0 {
        quiet(Error::ZeroAmount)
    } else if from.is_null() || env.caller.is_null() {
        quiet(Error::ZeroAddress)
    } else if s.balance_of(from) < value {
        quiet(Error::InsufficientBalance)
    } else if from != env.caller && s.allowance(from, env.caller) < value {
        quiet(Error::InsufficientAllowance)
    } else {
        supply_refusal(s, env, s.total_supply - value)
    }
}

/// The ledger after a burn: `from` and the supply are debited, and so is the caller's
/// allowance where the caller burns for another.
pub open spec fn burnt(s: State, env: Env, from: AccountId, value: Balance) -> State {
    let paid = if from != env.caller {
        spent(s, from, env.caller, value)
    } else {
        s
    };
    State {
        total_supply: (s.total_supply - value) as Balance,
        balances: s.balances.insert(from, (s.balance_of(from) - value) as Balance),
        ..paid
    }
}

/// A burn of `value` of what `from` holds.
pub open spec fn burn(s: State, env: Env, from: AccountId, value: Balance) -> Step<()> {
    step(
        s,
        burn_refusal(s, env, from, value),
        (),
        burnt(s, env, from, value),
        seq![Event::Transfer(Transfer { from: Some(from), to: None, value })],
    )
}

} // verus!
