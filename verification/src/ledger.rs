//! The ledger and its operations.

use vstd::prelude::*;
use crate::account::AccountId;
use crate::arith::{checked_add, checked_sub, Balance};
use crate::error::Error;
use crate::event::{Approval, Deposit, Event, SecurityAlert, Transfer, Withdrawal};
use crate::host::{Env, Payout};
use crate::limits::{
    ALERT_AMOUNT_TOO_LARGE, ALERT_GAS_LIMIT, ALERT_RATE_LIMIT, ALERT_REENTRANCY,
    ALERT_SUSPICIOUS_AMOUNT, ALERT_SUSPICIOUS_COUNT, DECIMALS, DEFAULT_COOLDOWN_MILLIS,
    DEFAULT_MAX_GAS_LIMIT, EARLY_LIFE_MILLIS, MAX_REASONABLE_AMOUNT, MAX_SINGLE_AMOUNT, MAX_SUPPLY,
    SUSPICIOUS_TRANSACTION_COUNT,
};
use crate::model;
use crate::model::{Rejection, State};
use crate::snapshot::Snapshot;
use crate::table::Table;
use crate::total::{lemma_sum_bounds_pair, lemma_sum_bounds_value, lemma_sum_insert};

verus! {

/// The ledger of the wrapped token.
#[derive(Debug)]
pub struct Wlunes {
    total_supply: Balance,
    balances: Table<AccountId, Balance>,
    allowances: Table<(AccountId, AccountId), Balance>,
    reentrancy_guard: bool,
    max_gas_limit: u64,
    deployment_timestamp: u64,
    last_transaction: Table<AccountId, u64>,
    transaction_cooldown: u64,
    transaction_count: Table<AccountId, u32>,
    isolated: bool,
    events: Vec<Event>,
}

impl View for Wlunes {
    type V = State;

    closed spec fn view(&self) -> State {
        State {
            total_supply: self.total_supply,
            balances: self.balances@,
            allowances: self.allowances@,
            reentrancy_guard: self.reentrancy_guard,
            max_gas_limit: self.max_gas_limit,
            deployment_timestamp: self.deployment_timestamp,
            last_transaction: self.last_transaction@,
            transaction_cooldown: self.transaction_cooldown,
            transaction_count: self.transaction_count@,
            isolated: self.isolated,
        }
    }
}

fn quiet(error: Error) -> (rejection: Rejection)
    ensures
        Some(rejection) == model::quiet(error),
{
    Rejection { error, alert: None }
}

fn alarm(
    error: Error,
    alert_type: u8,
    account: AccountId,
    details: Balance,
) -> (rejection: Rejection)
    ensures
        Some(rejection) == model::alarm(error, alert_type, account, details),
{
    Rejection { error, alert: Some(SecurityAlert { alert_type, account, details }) }
}

impl Wlunes {
    /// The notifications that the ledger has raised and the host has not yet taken.
    pub closed spec fn notifications(&self) -> Seq<Event> {
        self.events@
    }

    /// The tables of the ledger are well formed.
    pub closed spec fn wf(&self) -> bool {
        &&& self.balances.wf()
        &&& self.allowances.wf()
        &&& self.last_transaction.wf()
        &&& self.transaction_count.wf()
    }

    /// The invariant of the ledger: it is well formed, and the supply is the sum of all
    /// balances and within its bound.
    pub open spec fn inv(&self) -> bool {
        &&& self.wf()
        &&& self@.pegged()
    }

    /// A new ledger without tokens, deployed at the host's present time. An `isolated`
    /// ledger runs apart from a live host.
    pub fn new(env: &Env, isolated: bool) -> (ledger: Self)
        ensures
            ledger.inv(),
            ledger@ == model::initial(env.block_timestamp, isolated),
            ledger.notifications() == Seq::<Event>::empty(),
    {
        Wlunes {
            total_supply: 0,
            balances: Table::new(),
            allowances: Table::new(),
            reentrancy_guard: false,
            max_gas_limit: DEFAULT_MAX_GAS_LIMIT,
            deployment_timestamp: env.block_timestamp,
            last_transaction: Table::new(),
            transaction_cooldown: DEFAULT_COOLDOWN_MILLIS,
            transaction_count: Table::new(),
            isolated,
            events: Vec::new(),
        }
    }

    /// The tokens in circulation.
    pub fn total_supply(&self) -> (supply: Balance)
        ensures
            supply == self@.total_supply,
    {
        self.total_supply
    }

    /// What `owner` holds.
    pub fn balance_of(&self, owner: AccountId) -> (balance: Balance)
        requires
            self.wf(),
        ensures
            balance == self@.balance_of(owner),
    {
        match self.balances.get(owner) {
            Some(balance) => balance,
            None => 0,
        }
    }

    /// What `spender` may still move on behalf of `owner`.
    pub fn allowance(&self, owner: AccountId, spender: AccountId) -> (allowance: Balance)
        requires
            self.wf(),
        ensures
            allowance == self@.allowance(owner, spender),
    {
        match self.allowances.get((owner, spender)) {
            Some(allowance) => allowance,
            None => 0,
        }
    }

    /// The name of the token.
    pub fn token_name(&self) -> (name: Option<String>)
        ensures
            name is Some,
            name->0@ == "Wrapped Lunes"@,
    {
        Some("Wrapped Lunes".to_owned())
    }

    /// The symbol of the token.
    pub fn token_symbol(&self) -> (symbol: Option<String>)
        ensures
            symbol is Some,
            symbol->0@ == "WLUNES"@,
    {
        Some("WLUNES".to_owned())
    }

    /// The number of decimal places in which amounts are displayed.
    pub fn token_decimals(&self) -> (decimals: u8)
        ensures
            decimals == 8,
    {
        DECIMALS
    }

    /// Hands the pending notifications to the host, oldest first, and forgets them.
    pub fn take_events(&mut self) -> (events: Vec<Event>)
        ensures
            events@ == old(self).notifications(),
            final(self).notifications() == Seq::<Event>::empty(),
            final(self)@ == old(self)@,
            final(self).wf() == old(self).wf(),
    {
        let mut events: Vec<Event> = Vec::new();
        std::mem::swap(&mut self.events, &mut events);
        events
    }

    /// Raises the alert of a refusal, if it has one, and gives the error to return.
    fn reject(&mut self, rejection: Rejection) -> (error: Error)
        ensures
            error == rejection.error,
            final(self)@ == old(self)@,
            final(self).wf() == old(self).wf(),
            final(self).notifications() == old(self).notifications() + model::raised(rejection),
    {
        match rejection.alert {
            Some(alert) => {
                self.events.push(Event::SecurityAlert(alert));
            },
            None => {},
        }
        rejection.error
    }

    /// Refuses the null account.
    fn ensure_not_zero_address(&self, address: AccountId) -> (checked: Result<(), Rejection>)
        ensures
            checked == model::verdict(model::null_refusal(address)),
    {
        if address.is_zero() {
            return Err(quiet(Error::ZeroAddress));
        }
        Ok(())
    }

    /// Checks that `total_supply`, the supply that an operation is about to commit, is
    /// within its bound and, on a live ledger, equal to the reserve.
    fn validate_invariants(
        &self,
        env: &Env,
        total_supply: Balance,
    ) -> (checked: Result<(), Rejection>)
        ensures
            checked == model::verdict(model::supply_refusal(self@, *env, total_supply as int)),
    {
        if total_supply > MAX_SUPPLY {
            return Err(quiet(Error::InvalidState));
        }
        if !self.isolated && env.balance != total_supply {
            return Err(quiet(Error::InvalidState));
        }
        Ok(())
    }

    /// Takes the guard, or refuses where it is taken.
    fn reentrancy_guard(&mut self, env: &Env) -> (taken: Result<(), Rejection>)
        ensures
            old(self)@.reentrancy_guard ==> *final(self) == *old(self) && taken == model::verdict(
                model::reentrancy_refusal(*env),
            ),
            !old(self)@.reentrancy_guard ==> taken is Ok && final(self)@ == (State {
                reentrancy_guard: true,
                ..old(self)@
            }),
            final(self).wf() == old(self).wf(),
            final(self).notifications() == old(self).notifications(),
    {
        if self.reentrancy_guard {
            return Err(alarm(Error::ReentrancyDetected, ALERT_REENTRANCY, env.caller, 0));
        }
        self.reentrancy_guard = true;
        Ok(())
    }

    /// Releases the guard.
    fn release_reentrancy_guard(&mut self)
        ensures
            final(self)@ == (State { reentrancy_guard: false, ..old(self)@ }),
            final(self).wf() == old(self).wf(),
            final(self).notifications() == old(self).notifications(),
    {
        self.reentrancy_guard = false;
    }

    /// On a live ledger, refuses a call whose execution budget is under the minimum.
    fn validate_gas_limit(&self, env: &Env) -> (checked: Result<(), Rejection>)
        ensures
            checked == model::verdict(model::gas_refusal(self@, *env)),
    {
        if !self.isolated && env.gas_left < self.max_gas_limit {
            return Err(
                alarm(
                    Error::GasLimitExceeded,
                    ALERT_GAS_LIMIT,
                    env.caller,
                    env.gas_left as Balance,
                ),
            );
        }
        Ok(())
    }

    /// Refuses an amount above the limit for a single operation.
    fn validate_amount_limits(&self, env: &Env, amount: Balance) -> (checked: Result<(), Rejection>)
        ensures
            checked == model::verdict(model::amount_refusal(*env, amount)),
    {
        if amount > MAX_SINGLE_AMOUNT {
            return Err(alarm(Error::AmountTooLarge, ALERT_AMOUNT_TOO_LARGE, env.caller, amount));
        }
        Ok(())
    }

    /// Checks an account that takes part in a transfer.
    fn enhanced_address_validation(&self, address: AccountId) -> (checked: Result<(), Rejection>)
        ensures
            checked == model::verdict(model::null_refusal(address)),
    {
        self.ensure_not_zero_address(address)
    }

    /// On a live ledger, refuses a caller who comes back before the cooldown has passed.
    fn validate_rate_limiting(&self, env: &Env) -> (checked: Result<(), Rejection>)
        requires
            self.wf(),
        ensures
            checked == model::verdict(model::rate_refusal(self@, *env)),
    {
        if self.isolated {
            return Ok(());
        }
        let current_time = env.block_timestamp;
        let last_tx = match self.last_transaction.get(env.caller) {
            Some(time) => time,
            None => 0,
        };
        let blocked = match last_tx.checked_add(self.transaction_cooldown) {
            Some(next_allowed) => current_time < next_allowed,
            None => true,
        };
        if blocked {
            let waited: u64 = current_time.saturating_sub(last_tx);
            return Err(
                alarm(Error::OperationBlocked, ALERT_RATE_LIMIT, env.caller, waited as Balance),
            );
        }
        Ok(())
    }

    /// The caller's transaction count once this call is counted.
    fn counted(&self, env: &Env) -> (count: u32)
        requires
            self.wf(),
        ensures
            count == model::counted(self@, *env),
    {
        let tx_count = match self.transaction_count.get(env.caller) {
            Some(count) => count,
            None => 0,
        };
        if self.isolated {
            return tx_count;
        }
        match tx_count.checked_add(1) {
            Some(new_count) => new_count,
            None => tx_count,
        }
    }

    /// On a live ledger, records that the caller has passed the rate limiter now.
    fn record_transaction(&mut self, env: &Env)
        requires
            old(self).wf(),
        ensures
            final(self).wf(),
            final(self)@ == model::recorded(old(self)@, *env),
            final(self).notifications() == old(self).notifications(),
    {
        if !self.isolated {
            let count = self.counted(env);
            self.last_transaction.insert(env.caller, env.block_timestamp);
            self.transaction_count.insert(env.caller, count);
        }
    }

    /// Refuses a caller with too many transactions early in the ledger's life, and an
    /// amount beyond reason.
    fn detect_suspicious_patterns(
        &self,
        env: &Env,
        amount: Balance,
    ) -> (checked: Result<(), Rejection>)
        requires
            self.wf(),
        ensures
            checked == model::verdict(model::pattern_refusal(self@, *env, amount)),
    {
        let tx_count = self.counted(env);
        let current_time = env.block_timestamp;
        let time_since_deployment: u64 = current_time.saturating_sub(self.deployment_timestamp);
        if tx_count > SUSPICIOUS_TRANSACTION_COUNT && time_since_deployment < EARLY_LIFE_MILLIS {
            return Err(
                alarm(
                    Error::OperationBlocked,
                    ALERT_SUSPICIOUS_COUNT,
                    env.caller,
                    tx_count as Balance,
                ),
            );
        }
        if amount > MAX_REASONABLE_AMOUNT {
            return Err(alarm(Error::AmountTooLarge, ALERT_SUSPICIOUS_AMOUNT, env.caller, amount));
        }
        Ok(())
    }

    /// The checks on the caller of a deposit or withdrawal.
    fn validate_transaction_context(
        &self,
        env: &Env,
        amount: Balance,
    ) -> (checked: Result<(), Rejection>)
        requires
            self.wf(),
        ensures
            checked == model::verdict(model::context_refusal(self@, *env, amount)),
    {
        self.ensure_not_zero_address(env.caller)?;
        self.validate_gas_limit(env)?;
        self.validate_rate_limiting(env)?;
        self.detect_suspicious_patterns(env, amount)?;
        Ok(())
    }

    /// The checks and the bookkeeping of a withdrawal, under the guard.
    fn withdraw_internal(&mut self, env: &Env, amount: Balance) -> (done: Result<(), Rejection>)
        requires
            old(self).inv(),
        ensures
            final(self).inv(),
            done == model::verdict(model::withdraw_checks(old(self)@, *env, amount)),
            done is Err ==> *final(self) == *old(self),
            done is Ok ==> final(self)@ == model::withdrawn(old(self)@, *env, amount),
            done is Ok ==> final(self).notifications() == old(self).notifications()
                + model::withdraw_events(*env, amount),
    {
        if amount == 0 {
            return Err(quiet(Error::ZeroAmount));
        }
        let caller = env.caller;
        self.validate_transaction_context(env, amount)?;
        self.validate_amount_limits(env, amount)?;

        let caller_balance = self.balance_of(caller);
        if caller_balance < amount {
            return Err(quiet(Error::InsufficientBalance));
        }
        if env.balance < amount {
            return Err(quiet(Error::InsufficientBalance));
        }
        proof {
            self.balances.lemma_finite();
            lemma_sum_bounds_value(self.balances@, caller);
            lemma_sum_insert(self.balances@, caller, (caller_balance - amount) as Balance);
        }
        let new_total_supply = match checked_sub(self.total_supply, amount) {
            Ok(supply) => supply,
            Err(error) => {
                return Err(quiet(error));
            },
        };
        let new_caller_balance = match checked_sub(caller_balance, amount) {
            Ok(balance) => balance,
            Err(error) => {
                return Err(quiet(error));
            },
        };
        self.validate_invariants(env, new_total_supply)?;

        self.total_supply = new_total_supply;
        self.balances.insert(caller, new_caller_balance);
        self.record_transaction(env);

        self.events.push(Event::Transfer(Transfer { from: Some(caller), to: None, value: amount }));
        self.events.push(
            Event::Withdrawal(
                Withdrawal { account: caller, amount, timestamp: env.block_timestamp },
            ),
        );
        Ok(())
    }

    /// Debits `amount` from the caller and the supply and tells the host to pay it out of
    /// the reserve. The guard stays set until the host reports the payout with
    /// [`Wlunes::settle_withdrawal`]. A refusal changes nothing.
    pub fn withdraw(&mut self, env: &Env, amount: Balance) -> (result: Result<Payout, Error>)
        requires
            old(self).inv(),
        ensures
            final(self).inv(),
            result == model::withdraw(old(self)@, *env, amount).result,
            final(self)@ == model::withdraw(old(self)@, *env, amount).state,
            final(self).notifications() == old(self).notifications() + model::withdraw(
                old(self)@,
                *env,
                amount,
            ).events,
    {
        match self.reentrancy_guard(env) {
            Ok(()) => {},
            Err(rejection) => {
                return Err(self.reject(rejection));
            },
        }
        match self.withdraw_internal(env, amount) {
            Ok(()) => Ok(Payout { to: env.caller, amount }),
            Err(rejection) => {
                self.release_reentrancy_guard();
                Err(self.reject(rejection))
            },
        }
    }

    /// Ends a withdrawal: releases the guard, and reports a payout that the host could not
    /// make as `InvalidState`.
    pub fn settle_withdrawal(&mut self, paid: bool) -> (result: Result<(), Error>)
        requires
            old(self).inv(),
        ensures
            final(self).inv(),
            result == model::settle_withdrawal(old(self)@, paid).result,
            final(self)@ == model::settle_withdrawal(old(self)@, paid).state,
            final(self).notifications() == old(self).notifications(),
    {
        self.release_reentrancy_guard();
        if paid {
            Ok(())
        } else {
            Err(Error::InvalidState)
        }
    }

    /// Burns `value` of what `from` holds: the account and the supply are debited, and the
    /// reserve is not touched. A caller who burns for another spends allowance. A refusal
    /// changes nothing.
    pub fn burn(
        &mut self,
        env: &Env,
        from: AccountId,
        value: Balance,
    ) -> (result: Result<(), Error>)
        requires
            old(self).inv(),
        ensures
            final(self).inv(),
            result == model::burn(old(self)@, *env, from, value).result,
            final(self)@ == model::burn(old(self)@, *env, from, value).state,
            final(self).notifications() == old(self).notifications() + model::burn(
                old(self)@,
                *env,
                from,
                value,
            ).events,
    {
        if value == 0 {
            return Err(Error::ZeroAmount);
        }
        let caller = env.caller;
        if from.is_zero() || caller.is_zero() {
            return Err(Error::ZeroAddress);
        }
        let from_balance = self.balance_of(from);
        if from_balance < value {
            return Err(Error::InsufficientBalance);
        }
        let for_another = !(from == caller);
        let mut new_allowance: Balance = 0;
        if for_another {
            let allowance = self.allowance(from, caller);
            if allowance < value {
                return Err(Error::InsufficientAllowance);
            }
            new_allowance = checked_sub(allowance, value)?;
        }
        proof {
            self.balances.lemma_finite();
            lemma_sum_bounds_value(self.balances@, from);
            lemma_sum_insert(self.balances@, from, (from_balance - value) as Balance);
        }
        let new_total_supply = checked_sub(self.total_supply, value)?;
        let new_from_balance = checked_sub(from_balance, value)?;
        match self.validate_invariants(env, new_total_supply) {
            Ok(()) => {},
            Err(rejection) => {
                return Err(self.reject(rejection));
            },
        }

        if for_another {
            self.allowances.insert((from, caller), new_allowance);
        }
        self.total_supply = new_total_supply;
        self.balances.insert(from, new_from_balance);

        self.events.push(Event::Transfer(Transfer { from: Some(from), to: None, value }));
        Ok(())
    }

    /// The checks and the bookkeeping of a deposit, under the guard.
    fn deposit_internal(&mut self, env: &Env) -> (done: Result<(), Rejection>)
        requires
            old(self).inv(),
        ensures
            final(self).inv(),
            done == model::verdict(model::deposit_checks(old(self)@, *env)),
            done is Err ==> *final(self) == *old(self),
            done is Ok ==> final(self)@ == model::deposited(old(self)@, *env),
            done is Ok ==> final(self).notifications() == old(self).notifications()
                + model::deposit_events(*env),
    {
        let amount = env.transferred_value;
        if amount == 0 {
            return Err(quiet(Error::ZeroAmount));
        }
        let caller = env.caller;
        self.validate_transaction_context(env, amount)?;
        self.validate_amount_limits(env, amount)?;

        let caller_balance = self.balance_of(caller);
        proof {
            self.balances.lemma_finite();
            lemma_sum_bounds_value(self.balances@, caller);
            lemma_sum_insert(self.balances@, caller, (caller_balance + amount) as Balance);
        }
        let new_total_supply = match checked_add(self.total_supply, amount) {
            Ok(supply) => supply,
            Err(error) => {
                return Err(quiet(error));
            },
        };
        let new_caller_balance = match checked_add(caller_balance, amount) {
            Ok(balance) => balance,
            Err(error) => {
                return Err(quiet(error));
            },
        };
        self.validate_invariants(env, new_total_supply)?;

        self.total_supply = new_total_supply;
        self.balances.insert(caller, new_caller_balance);
        self.record_transaction(env);

        self.events.push(Event::Transfer(Transfer { from: None, to: Some(caller), value: amount }));
        self.events.push(
            Event::Deposit(Deposit { account: caller, amount, timestamp: env.block_timestamp }),
        );
        Ok(())
    }

    /// Credits the value that came with the call to the caller and to the supply.
    /// A refusal changes nothing.
    pub fn deposit(&mut self, env: &Env) -> (result: Result<(), Error>)
        requires
            old(self).inv(),
        ensures
            final(self).inv(),
            result == model::deposit(old(self)@, *env).result,
            final(self)@ == model::deposit(old(self)@, *env).state,
            final(self).notifications() == old(self).notifications() + model::deposit(
                old(self)@,
                *env,
            ).events,
    {
        match self.reentrancy_guard(env) {
            Ok(()) => {},
            Err(rejection) => {
                return Err(self.reject(rejection));
            },
        }
        let done = self.deposit_internal(env);
        self.release_reentrancy_guard();
        match done {
            Ok(()) => Ok(()),
            Err(rejection) => Err(self.reject(rejection)),
        }
    }

    /// Moves `value` from `from` to `to`, once the accounts and the amount have been checked.
    fn transfer_helper(
        &mut self,
        env: &Env,
        from: AccountId,
        to: AccountId,
        value: Balance,
    ) -> (done: Result<(), Rejection>)
        requires
            old(self).inv(),
        ensures
            final(self).inv(),
            done == model::verdict(model::movement_refusal(old(self)@, *env, from, to, value)),
            done is Err ==> *final(self) == *old(self),
            done is Ok ==> final(self)@ == model::moved(old(self)@, from, to, value),
            done is Ok ==> final(self).notifications() == old(self).notifications()
                + model::movement_events(from, to, value),
    {
        if value == 0 {
            return Err(quiet(Error::ZeroAmount));
        }
        if from == to {
            return Ok(());
        }
        let from_balance = self.balance_of(from);
        let to_balance = self.balance_of(to);
        if from_balance < value {
            return Err(quiet(Error::InsufficientBalance));
        }
        proof {
            self.balances.lemma_finite();
            lemma_sum_bounds_pair(self.balances@, from, to);
            let debited = self.balances@.insert(from, (from_balance - value) as Balance);
            lemma_sum_insert(self.balances@, from, (from_balance - value) as Balance);
            lemma_sum_insert(debited, to, (to_balance + value) as Balance);
        }
        let new_from_balance = match checked_sub(from_balance, value) {
            Ok(balance) => balance,
            Err(error) => {
                return Err(quiet(error));
            },
        };
        let new_to_balance = match checked_add(to_balance, value) {
            Ok(balance) => balance,
            Err(error) => {
                return Err(quiet(error));
            },
        };
        self.validate_invariants(env, self.total_supply)?;

        self.balances.insert(from, new_from_balance);
        self.balances.insert(to, new_to_balance);

        self.events.push(Event::Transfer(Transfer { from: Some(from), to: Some(to), value }));
        Ok(())
    }

    /// Moves `value` from the caller to `to`. A caller who pays itself changes nothing.
    /// A refusal changes nothing.
    pub fn transfer(
        &mut self,
        env: &Env,
        to: AccountId,
        value: Balance,
        _data: Vec<u8>,
    ) -> (result: Result<(), Error>)
        requires
            old(self).inv(),
        ensures
            final(self).inv(),
            result == model::transfer(old(self)@, *env, to, value).result,
            final(self)@ == model::transfer(old(self)@, *env, to, value).state,
            final(self).notifications() == old(self).notifications() + model::transfer(
                old(self)@,
                *env,
                to,
                value,
            ).events,
    {
        let from = env.caller;
        let done = match self.check_transfer(env, to, value) {
            Ok(()) => self.transfer_helper(env, from, to, value),
            Err(rejection) => Err(rejection),
        };
        match done {
            Ok(()) => Ok(()),
            Err(rejection) => Err(self.reject(rejection)),
        }
    }

    /// The checks of a transfer that come before the movement.
    fn check_transfer(
        &self,
        env: &Env,
        to: AccountId,
        value: Balance,
    ) -> (checked: Result<(), Rejection>)
        ensures
            checked == model::verdict(
                model::or_else(
                    model::null_refusal(env.caller),
                    model::or_else(model::null_refusal(to), model::amount_refusal(*env, value)),
                ),
            ),
    {
        self.enhanced_address_validation(env.caller)?;
        self.enhanced_address_validation(to)?;
        self.validate_amount_limits(env, value)?;
        Ok(())
    }

    /// The checks of a transfer on allowance that come before the movement. Gives the
    /// allowance that is left once `value` is spent.
    fn check_transfer_from(
        &self,
        env: &Env,
        from: AccountId,
        to: AccountId,
        value: Balance,
    ) -> (checked: Result<Balance, Rejection>)
        requires
            self.wf(),
        ensures
            checked is Err ==> model::transfer_from_refusal(self@, *env, from, to, value) == Some(
                checked->Err_0,
            ),
            checked is Ok ==> model::transfer_from_refusal(self@, *env, from, to, value)
                == model::movement_refusal(self@, *env, from, to, value),
            checked is Ok ==> checked->Ok_0 == self@.allowance(from, env.caller) - value,
    {
        self.enhanced_address_validation(env.caller)?;
        self.enhanced_address_validation(from)?;
        self.enhanced_address_validation(to)?;
        self.validate_amount_limits(env, value)?;
        let allowance = self.allowance(from, env.caller);
        if allowance < value {
            return Err(quiet(Error::InsufficientAllowance));
        }
        match checked_sub(allowance, value) {
            Ok(left) => Ok(left),
            Err(error) => Err(quiet(error)),
        }
    }

    /// Moves `value` from `from` to `to` on the allowance that `from` gave the caller, and
    /// debits that allowance. A refusal changes nothing.
    pub fn transfer_from(
        &mut self,
        env: &Env,
        from: AccountId,
        to: AccountId,
        value: Balance,
        _data: Vec<u8>,
    ) -> (result: Result<(), Error>)
        requires
            old(self).inv(),
        ensures
            final(self).inv(),
            result == model::transfer_from(old(self)@, *env, from, to, value).result,
            final(self)@ == model::transfer_from(old(self)@, *env, from, to, value).state,
            final(self).notifications() == old(self).notifications() + model::transfer_from(
                old(self)@,
                *env,
                from,
                to,
                value,
            ).events,
    {
        let caller = env.caller;
        let new_allowance = match self.check_transfer_from(env, from, to, value) {
            Ok(left) => left,
            Err(rejection) => {
                return Err(self.reject(rejection));
            },
        };
        match self.transfer_helper(env, from, to, value) {
            Ok(()) => {
                self.allowances.insert((from, caller), new_allowance);
                Ok(())
            },
            Err(rejection) => Err(self.reject(rejection)),
        }
    }

    /// Sets the amount that `spender` may move on the caller's behalf, whatever it was.
    /// A refusal changes nothing.
    pub fn approve(
        &mut self,
        env: &Env,
        spender: AccountId,
        value: Balance,
    ) -> (result: Result<(), Error>)
        requires
            old(self).inv(),
        ensures
            final(self).inv(),
            result == model::approve(old(self)@, *env, spender, value).result,
            final(self)@ == model::approve(old(self)@, *env, spender, value).state,
            final(self).notifications() == old(self).notifications() + model::approve(
                old(self)@,
                *env,
                spender,
                value,
            ).events,
    {
        let owner = env.caller;
        if owner.is_zero() || spender.is_zero() {
            return Err(Error::ZeroAddress);
        }
        if value > 0 && owner == spender {
            return Err(Error::InvalidState);
        }
        self.allowances.insert((owner, spender), value);
        self.events.push(Event::Approval(Approval { owner, spender, value }));
        Ok(())
    }

    /// The ledger as plain data, for the host to keep. Pending notifications are not part
    /// of it.
    pub fn snapshot(&self) -> (snapshot: Snapshot)
        requires
            self.inv(),
        ensures
            snapshot.valid(),
            snapshot.state() == self@,
    {
        Snapshot {
            total_supply: self.total_supply,
            balances: self.balances.entries(),
            allowances: self.allowances.entries(),
            reentrancy_guard: self.reentrancy_guard,
            max_gas_limit: self.max_gas_limit,
            deployment_timestamp: self.deployment_timestamp,
            last_transaction: self.last_transaction.entries(),
            transaction_cooldown: self.transaction_cooldown,
            transaction_count: self.transaction_count.entries(),
            isolated: self.isolated,
        }
    }

    /// The ledger that a snapshot stands for, if the snapshot is valid.
    pub fn restore(snapshot: Snapshot) -> (ledger: Option<Self>)
        ensures
            ledger is Some <==> snapshot.valid(),
            ledger is Some ==> {
                &&& ledger->0.inv()
                &&& ledger->0@ == snapshot.state()
                &&& ledger->0.notifications() == Seq::<Event>::empty()
            },
    {
        if snapshot.total_supply > MAX_SUPPLY {
            return None;
        }
        let balances = Table::from_entries(snapshot.balances)?;
        let allowances = Table::from_entries(snapshot.allowances)?;
        let last_transaction = Table::from_entries(snapshot.last_transaction)?;
        let transaction_count = Table::from_entries(snapshot.transaction_count)?;
        proof {
            balances.lemma_finite();
        }
        match balances.sum_within(MAX_SUPPLY) {
            Some(sum) => {
                if sum != snapshot.total_supply {
                    return None;
                }
            },
            None => {
                return None;
            },
        }
        Some(
            Wlunes {
                total_supply: snapshot.total_supply,
                balances,
                allowances,
                reentrancy_guard: snapshot.reentrancy_guard,
                max_gas_limit: snapshot.max_gas_limit,
                deployment_timestamp: snapshot.deployment_timestamp,
                last_transaction,
                transaction_cooldown: snapshot.transaction_cooldown,
                transaction_count,
                isolated: snapshot.isolated,
                events: Vec::new(),
            },
        )
    }
}

} // verus!
