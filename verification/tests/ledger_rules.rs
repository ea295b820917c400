use wlunes::account::AccountId;
use wlunes::error::Error;
use wlunes::event::{Approval, Deposit, Event, SecurityAlert, Transfer, Withdrawal};
use wlunes::host::{Env, Payout};
use wlunes::ledger::Wlunes;
use wlunes::snapshot::Snapshot;
use wlunes::limits::{
    ALERT_AMOUNT_TOO_LARGE, ALERT_GAS_LIMIT, ALERT_RATE_LIMIT, ALERT_REENTRANCY,
    ALERT_SUSPICIOUS_AMOUNT, ALERT_SUSPICIOUS_COUNT, MAX_REASONABLE_AMOUNT, MAX_SINGLE_AMOUNT,
    MAX_SUPPLY,
};

fn alice() -> AccountId {
    AccountId::from([1u8; 32])
}

fn bob() -> AccountId {
    AccountId::from([2u8; 32])
}

fn charlie() -> AccountId {
    AccountId::from([3u8; 32])
}

fn nobody() -> AccountId {
    AccountId::from([0u8; 32])
}

fn host(caller: AccountId) -> Env {
    Env { caller, block_timestamp: 0, transferred_value: 0, balance: 0, gas_left: 0 }
}

/// A live host with budget to spare, at a time at which no cooldown is running.
fn live_host(caller: AccountId) -> Env {
    Env { caller, block_timestamp: 10_000, transferred_value: 0, balance: 0, gas_left: 5_000_000 }
}

fn isolated_ledger() -> Wlunes {
    Wlunes::new(&host(alice()), true)
}

fn live_ledger() -> Wlunes {
    Wlunes::new(&host(alice()), false)
}

/// An isolated ledger in which `account` holds `amount`, with no notification pending.
fn funded(account: AccountId, amount: u128) -> Wlunes {
    let mut wlunes = isolated_ledger();
    let mut env = host(account);
    env.transferred_value = amount;
    assert_eq!(wlunes.deposit(&env), Ok(()));
    wlunes.take_events();
    wlunes
}

fn alert(alert_type: u8, account: AccountId, details: u128) -> Event {
    Event::SecurityAlert(SecurityAlert { alert_type, account, details })
}

/// The ledger as plain data, each list in the order of its keys.
fn books(wlunes: &Wlunes) -> Snapshot {
    let mut snapshot = wlunes.snapshot();
    snapshot.balances.sort_by_key(|entry| entry.0 .0);
    snapshot.allowances.sort_by_key(|entry| (entry.0 .0 .0, entry.0 .1 .0));
    snapshot.last_transaction.sort_by_key(|entry| entry.0 .0);
    snapshot.transaction_count.sort_by_key(|entry| entry.0 .0);
    snapshot
}

fn sum_of_balances(wlunes: &Wlunes) -> u128 {
    wlunes.snapshot().balances.iter().map(|entry| entry.1).sum()
}

// ---- scenarios ----

#[test]
fn scenario_deposit_credits_caller_and_supply() {
    let mut wlunes = isolated_ledger();
    let mut env = host(alice());
    env.transferred_value = 100;
    assert_eq!(wlunes.deposit(&env), Ok(()));
    assert_eq!(wlunes.total_supply(), 100);
    assert_eq!(wlunes.balance_of(alice()), 100);
}

#[test]
fn scenario_withdraw_debits_and_orders_payout() {
    let mut wlunes = funded(alice(), 100);
    let mut env = host(alice());
    env.balance = 30;
    assert_eq!(wlunes.withdraw(&env, 30), Ok(Payout { to: alice(), amount: 30 }));
    assert_eq!(wlunes.total_supply(), 70);
    assert_eq!(wlunes.balance_of(alice()), 70);
    assert_eq!(wlunes.settle_withdrawal(true), Ok(()));
    assert_eq!(wlunes.total_supply(), 70);
    assert_eq!(wlunes.balance_of(alice()), 70);
}

#[test]
fn scenario_transfer_moves_between_accounts() {
    let mut wlunes = funded(alice(), 100);
    assert_eq!(wlunes.transfer(&host(alice()), bob(), 30, vec![]), Ok(()));
    assert_eq!(wlunes.balance_of(alice()), 70);
    assert_eq!(wlunes.balance_of(bob()), 30);
    assert_eq!(wlunes.total_supply(), 100);
}

#[test]
fn scenario_transfer_from_spends_allowance() {
    let mut wlunes = funded(alice(), 100);
    assert_eq!(wlunes.approve(&host(alice()), bob(), 50), Ok(()));
    assert_eq!(wlunes.transfer_from(&host(bob()), alice(), charlie(), 30, vec![]), Ok(()));
    assert_eq!(wlunes.balance_of(alice()), 70);
    assert_eq!(wlunes.balance_of(charlie()), 30);
    assert_eq!(wlunes.allowance(alice(), bob()), 20);
}

#[test]
fn scenario_zero_amounts_and_empty_balance() {
    let mut wlunes = isolated_ledger();
    let mut env = host(alice());
    env.balance = 1000;
    assert_eq!(wlunes.deposit(&env), Err(Error::ZeroAmount));
    assert_eq!(wlunes.withdraw(&env, 0), Err(Error::ZeroAmount));
    assert_eq!(wlunes.withdraw(&env, 100), Err(Error::InsufficientBalance));
}

#[test]
fn scenario_deposit_of_the_whole_range_is_refused() {
    let mut wlunes = isolated_ledger();
    let mut env = host(alice());
    env.transferred_value = u128::MAX;
    assert_eq!(wlunes.deposit(&env), Err(Error::AmountTooLarge));
    assert_eq!(wlunes.total_supply(), 0);
    assert_eq!(wlunes.balance_of(alice()), 0);
    assert_eq!(
        wlunes.take_events(),
        vec![alert(ALERT_SUSPICIOUS_AMOUNT, alice(), u128::MAX)]
    );
}

// ---- the peg ----

#[test]
fn supply_is_the_sum_of_all_balances() {
    let mut wlunes = funded(alice(), 1000);
    let mut env = host(bob());
    env.transferred_value = 500;
    assert_eq!(wlunes.deposit(&env), Ok(()));
    assert_eq!(wlunes.transfer(&host(alice()), charlie(), 250, vec![]), Ok(()));
    assert_eq!(wlunes.burn(&host(bob()), bob(), 100), Ok(()));
    env.balance = 10_000;
    assert_eq!(wlunes.withdraw(&env, 50), Ok(Payout { to: bob(), amount: 50 }));
    assert_eq!(wlunes.settle_withdrawal(true), Ok(()));

    assert_eq!(wlunes.balance_of(alice()), 750);
    assert_eq!(wlunes.balance_of(bob()), 350);
    assert_eq!(wlunes.balance_of(charlie()), 250);
    assert_eq!(wlunes.total_supply(), 1350);
    assert_eq!(sum_of_balances(&wlunes), wlunes.total_supply());
}

#[test]
fn live_deposit_needs_the_reserve_to_match() {
    let mut wlunes = live_ledger();
    let mut env = live_host(alice());
    env.transferred_value = 100;

    env.balance = 99;
    assert_eq!(wlunes.deposit(&env), Err(Error::InvalidState));
    assert_eq!(wlunes.total_supply(), 0);

    env.balance = 100;
    assert_eq!(wlunes.deposit(&env), Ok(()));
    assert_eq!(wlunes.total_supply(), 100);
    assert_eq!(wlunes.total_supply(), env.balance);
}

#[test]
fn live_transfer_and_burn_need_the_reserve_to_match() {
    let mut wlunes = live_ledger();
    let mut env = live_host(alice());
    env.transferred_value = 100;
    env.balance = 100;
    assert_eq!(wlunes.deposit(&env), Ok(()));

    env.balance = 101;
    assert_eq!(wlunes.transfer(&env, bob(), 10, vec![]), Err(Error::InvalidState));
    assert_eq!(wlunes.balance_of(alice()), 100);
    assert_eq!(wlunes.balance_of(bob()), 0);
    // Paying oneself moves nothing and asks nothing of the reserve.
    assert_eq!(wlunes.transfer(&env, alice(), 10, vec![]), Ok(()));

    env.balance = 100;
    assert_eq!(wlunes.transfer(&env, bob(), 10, vec![]), Ok(()));
    assert_eq!(wlunes.balance_of(bob()), 10);

    // A burn lowers the supply, so the reserve must already be at the new supply.
    assert_eq!(wlunes.burn(&env, alice(), 40), Err(Error::InvalidState));
    assert_eq!(wlunes.total_supply(), 100);
    env.balance = 60;
    assert_eq!(wlunes.burn(&env, alice(), 40), Ok(()));
    assert_eq!(wlunes.total_supply(), 60);
}

#[test]
fn live_withdraw_checks_the_reserve_before_the_payout() {
    let mut wlunes = live_ledger();
    let mut env = live_host(alice());
    env.transferred_value = 100;
    env.balance = 100;
    assert_eq!(wlunes.deposit(&env), Ok(()));

    // The reserve still holds what is about to be paid out: the supply after the
    // bookkeeping parts from it, and the withdrawal is refused.
    env.block_timestamp = 20_000;
    assert_eq!(wlunes.withdraw(&env, 30), Err(Error::InvalidState));
    assert_eq!(wlunes.total_supply(), 100);
    assert_eq!(wlunes.balance_of(alice()), 100);

    env.balance = 70;
    assert_eq!(wlunes.withdraw(&env, 30), Ok(Payout { to: alice(), amount: 30 }));
    assert_eq!(wlunes.total_supply(), 70);
}

#[test]
fn supply_never_exceeds_half_the_range() {
    let mut wlunes = isolated_ledger();
    let mut env = host(alice());
    env.transferred_value = MAX_REASONABLE_AMOUNT;
    for _ in 0..500 {
        assert_eq!(wlunes.deposit(&env), Ok(()));
    }
    assert_eq!(wlunes.total_supply(), 500 * MAX_REASONABLE_AMOUNT);
    assert!(wlunes.total_supply() <= MAX_SUPPLY);

    assert_eq!(wlunes.deposit(&env), Err(Error::InvalidState));
    assert_eq!(wlunes.total_supply(), 500 * MAX_REASONABLE_AMOUNT);
    assert_eq!(wlunes.balance_of(alice()), 500 * MAX_REASONABLE_AMOUNT);

    env.transferred_value = MAX_SUPPLY - 500 * MAX_REASONABLE_AMOUNT;
    assert_eq!(wlunes.deposit(&env), Ok(()));
    assert_eq!(wlunes.total_supply(), MAX_SUPPLY);
    env.transferred_value = 1;
    assert_eq!(wlunes.deposit(&env), Err(Error::InvalidState));
}

// ---- conservation ----

#[test]
fn only_deposit_withdraw_and_burn_change_the_supply() {
    let mut wlunes = funded(alice(), 1000);
    assert_eq!(wlunes.total_supply(), 1000);

    assert_eq!(wlunes.transfer(&host(alice()), bob(), 400, vec![]), Ok(()));
    assert_eq!(wlunes.total_supply(), 1000);
    assert_eq!(wlunes.approve(&host(alice()), bob(), 300), Ok(()));
    assert_eq!(wlunes.total_supply(), 1000);
    assert_eq!(wlunes.transfer_from(&host(bob()), alice(), charlie(), 300, vec![]), Ok(()));
    assert_eq!(wlunes.total_supply(), 1000);

    let mut env = host(charlie());
    env.transferred_value = 7;
    assert_eq!(wlunes.deposit(&env), Ok(()));
    assert_eq!(wlunes.total_supply(), 1007);
    env.balance = 5;
    assert_eq!(wlunes.withdraw(&env, 5), Ok(Payout { to: charlie(), amount: 5 }));
    assert_eq!(wlunes.total_supply(), 1002);
    assert_eq!(wlunes.settle_withdrawal(true), Ok(()));
    assert_eq!(wlunes.burn(&host(bob()), bob(), 2), Ok(()));
    assert_eq!(wlunes.total_supply(), 1000);
}

// ---- refusals change nothing ----

#[test]
fn refused_operations_leave_the_ledger_as_it_was() {
    let mut wlunes = funded(alice(), 100);
    assert_eq!(wlunes.approve(&host(alice()), bob(), 40), Ok(()));
    wlunes.take_events();
    let before = books(&wlunes);

    let mut env = host(alice());
    env.balance = 1000;
    assert_eq!(wlunes.withdraw(&env, 101), Err(Error::InsufficientBalance));
    assert_eq!(wlunes.transfer(&env, bob(), 101, vec![]), Err(Error::InsufficientBalance));
    assert_eq!(wlunes.burn(&env, alice(), 101), Err(Error::InsufficientBalance));
    assert_eq!(wlunes.burn(&host(bob()), alice(), 41), Err(Error::InsufficientAllowance));
    assert_eq!(
        wlunes.transfer_from(&host(bob()), alice(), charlie(), 41, vec![]),
        Err(Error::InsufficientAllowance)
    );
    assert_eq!(wlunes.transfer(&env, nobody(), 1, vec![]), Err(Error::ZeroAddress));
    assert_eq!(wlunes.approve(&env, alice(), 1), Err(Error::InvalidState));
    assert_eq!(wlunes.deposit(&env), Err(Error::ZeroAmount));

    assert_eq!(books(&wlunes), before);
    assert_eq!(wlunes.take_events(), vec![]);
}

#[test]
fn failed_movement_keeps_the_allowance() {
    let mut wlunes = funded(alice(), 100);
    assert_eq!(wlunes.approve(&host(alice()), bob(), 500), Ok(()));
    assert_eq!(
        wlunes.transfer_from(&host(bob()), alice(), charlie(), 200, vec![]),
        Err(Error::InsufficientBalance)
    );
    assert_eq!(wlunes.allowance(alice(), bob()), 500);
    assert_eq!(
        wlunes.transfer_from(&host(bob()), alice(), charlie(), 0, vec![]),
        Err(Error::ZeroAmount)
    );
    assert_eq!(wlunes.allowance(alice(), bob()), 500);
}

#[test]
fn insufficient_reserve_refuses_a_withdrawal() {
    let mut wlunes = funded(alice(), 100);
    let mut env = host(alice());
    env.balance = 29;
    assert_eq!(wlunes.withdraw(&env, 30), Err(Error::InsufficientBalance));
    assert_eq!(wlunes.balance_of(alice()), 100);
    env.balance = 30;
    assert_eq!(wlunes.withdraw(&env, 30), Ok(Payout { to: alice(), amount: 30 }));
}

// ---- re-entrancy ----

#[test]
fn guard_excludes_a_second_guarded_operation() {
    let mut wlunes = funded(alice(), 100);
    let mut env = host(alice());
    env.balance = 100;
    assert_eq!(wlunes.withdraw(&env, 10), Ok(Payout { to: alice(), amount: 10 }));
    wlunes.take_events();
    let held = books(&wlunes);
    assert!(held.reentrancy_guard);

    // While the payout is under way neither a deposit nor a withdrawal gets in,
    // whoever calls.
    let mut intruder = host(bob());
    intruder.transferred_value = 5;
    intruder.balance = 100;
    assert_eq!(wlunes.deposit(&intruder), Err(Error::ReentrancyDetected));
    assert_eq!(wlunes.withdraw(&env, 10), Err(Error::ReentrancyDetected));
    assert_eq!(books(&wlunes), held);
    assert_eq!(
        wlunes.take_events(),
        vec![alert(ALERT_REENTRANCY, bob(), 0), alert(ALERT_REENTRANCY, alice(), 0)]
    );

    assert_eq!(wlunes.settle_withdrawal(true), Ok(()));
    assert!(!wlunes.snapshot().reentrancy_guard);
    assert_eq!(wlunes.deposit(&intruder), Ok(()));
    assert!(!wlunes.snapshot().reentrancy_guard);
}

#[test]
fn guard_is_clear_after_every_refusal() {
    let mut wlunes = funded(alice(), 100);
    let env = host(alice());
    assert_eq!(wlunes.deposit(&env), Err(Error::ZeroAmount));
    assert!(!wlunes.snapshot().reentrancy_guard);
    assert_eq!(wlunes.withdraw(&env, 0), Err(Error::ZeroAmount));
    assert!(!wlunes.snapshot().reentrancy_guard);
    assert_eq!(wlunes.withdraw(&env, 1000), Err(Error::InsufficientBalance));
    assert!(!wlunes.snapshot().reentrancy_guard);
}

#[test]
fn failed_payout_is_an_invalid_state_and_releases_the_guard() {
    let mut wlunes = funded(alice(), 100);
    let mut env = host(alice());
    env.balance = 100;
    assert_eq!(wlunes.withdraw(&env, 10), Ok(Payout { to: alice(), amount: 10 }));
    assert_eq!(wlunes.settle_withdrawal(false), Err(Error::InvalidState));
    assert!(!wlunes.snapshot().reentrancy_guard);
    assert_eq!(wlunes.total_supply(), 90);
}

#[test]
fn transfers_do_not_take_the_guard() {
    let mut wlunes = funded(alice(), 100);
    let mut env = host(alice());
    env.balance = 100;
    assert_eq!(wlunes.withdraw(&env, 10), Ok(Payout { to: alice(), amount: 10 }));
    assert_eq!(wlunes.transfer(&env, bob(), 5, vec![]), Ok(()));
    assert_eq!(wlunes.approve(&env, bob(), 5), Ok(()));
    assert_eq!(wlunes.burn(&env, alice(), 5), Ok(()));
    assert!(wlunes.snapshot().reentrancy_guard);
}

// ---- self-transfer ----

#[test]
fn self_transfer_is_a_no_op() {
    let mut wlunes = funded(alice(), 100);
    let before = books(&wlunes);
    assert_eq!(wlunes.transfer(&host(alice()), alice(), 30, vec![]), Ok(()));
    // More than the caller holds: still nothing moves and nothing is refused.
    assert_eq!(wlunes.transfer(&host(alice()), alice(), 1000, vec![]), Ok(()));
    assert_eq!(wlunes.balance_of(alice()), 100);
    assert_eq!(books(&wlunes), before);
    assert_eq!(wlunes.take_events(), vec![]);
}

#[test]
fn self_transfer_still_passes_the_checks_before_it() {
    let mut wlunes = funded(alice(), 100);
    assert_eq!(wlunes.transfer(&host(alice()), alice(), 0, vec![]), Err(Error::ZeroAmount));
    assert_eq!(
        wlunes.transfer(&host(alice()), alice(), MAX_SINGLE_AMOUNT + 1, vec![]),
        Err(Error::AmountTooLarge)
    );
    assert_eq!(wlunes.transfer(&host(nobody()), nobody(), 1, vec![]), Err(Error::ZeroAddress));
}

#[test]
fn transfer_from_to_the_owner_spends_allowance_and_moves_nothing() {
    let mut wlunes = funded(alice(), 100);
    assert_eq!(wlunes.approve(&host(alice()), bob(), 500), Ok(()));
    wlunes.take_events();
    assert_eq!(wlunes.transfer_from(&host(bob()), alice(), alice(), 200, vec![]), Ok(()));
    assert_eq!(wlunes.balance_of(alice()), 100);
    assert_eq!(wlunes.allowance(alice(), bob()), 300);
    assert_eq!(wlunes.take_events(), vec![]);
}

// ---- identities ----

#[test]
fn null_account_takes_part_in_nothing() {
    let mut wlunes = funded(alice(), 100);
    let mut env = host(nobody());
    env.transferred_value = 5;
    env.balance = 100;
    assert_eq!(wlunes.deposit(&env), Err(Error::ZeroAddress));
    assert_eq!(wlunes.withdraw(&env, 5), Err(Error::ZeroAddress));
    assert_eq!(wlunes.transfer(&env, alice(), 5, vec![]), Err(Error::ZeroAddress));
    assert_eq!(wlunes.transfer(&host(alice()), nobody(), 5, vec![]), Err(Error::ZeroAddress));
    assert_eq!(wlunes.transfer_from(&env, alice(), bob(), 5, vec![]), Err(Error::ZeroAddress));
    assert_eq!(
        wlunes.transfer_from(&host(bob()), nobody(), alice(), 5, vec![]),
        Err(Error::ZeroAddress)
    );
    assert_eq!(
        wlunes.transfer_from(&host(bob()), alice(), nobody(), 5, vec![]),
        Err(Error::ZeroAddress)
    );
    assert_eq!(wlunes.approve(&env, alice(), 5), Err(Error::ZeroAddress));
    assert_eq!(wlunes.approve(&host(alice()), nobody(), 5), Err(Error::ZeroAddress));
    assert_eq!(wlunes.burn(&env, alice(), 5), Err(Error::ZeroAddress));
    assert_eq!(wlunes.burn(&host(alice()), nobody(), 5), Err(Error::ZeroAddress));
    assert_eq!(wlunes.take_events(), vec![]);
}

#[test]
fn zero_amount_comes_before_the_null_account_in_a_burn() {
    let mut wlunes = isolated_ledger();
    assert_eq!(wlunes.burn(&host(nobody()), nobody(), 0), Err(Error::ZeroAmount));
    assert_eq!(wlunes.transfer(&host(alice()), nobody(), 0, vec![]), Err(Error::ZeroAddress));
}

// ---- amount limits ----

#[test]
fn single_amount_limit_is_a_tenth_of_the_range() {
    assert_eq!(MAX_SINGLE_AMOUNT, 34028236692093846346337460743176821145);
    let mut wlunes = funded(alice(), 100);
    let env = host(alice());
    assert_eq!(
        wlunes.transfer(&env, bob(), MAX_SINGLE_AMOUNT, vec![]),
        Err(Error::InsufficientBalance)
    );
    assert_eq!(wlunes.take_events(), vec![]);
    assert_eq!(
        wlunes.transfer(&env, bob(), MAX_SINGLE_AMOUNT + 1, vec![]),
        Err(Error::AmountTooLarge)
    );
    assert_eq!(
        wlunes.take_events(),
        vec![alert(ALERT_AMOUNT_TOO_LARGE, alice(), MAX_SINGLE_AMOUNT + 1)]
    );
    assert_eq!(
        wlunes.transfer_from(&host(bob()), alice(), charlie(), MAX_SINGLE_AMOUNT + 1, vec![]),
        Err(Error::AmountTooLarge)
    );
    assert_eq!(
        wlunes.take_events(),
        vec![alert(ALERT_AMOUNT_TOO_LARGE, bob(), MAX_SINGLE_AMOUNT + 1)]
    );
}

#[test]
fn burn_is_not_held_to_the_single_amount_limit() {
    let mut wlunes = isolated_ledger();
    let mut env = host(alice());
    env.transferred_value = MAX_REASONABLE_AMOUNT;
    for _ in 0..101 {
        assert_eq!(wlunes.deposit(&env), Ok(()));
    }
    let held = 101 * MAX_REASONABLE_AMOUNT;
    assert!(held > MAX_SINGLE_AMOUNT);
    assert_eq!(wlunes.burn(&env, alice(), held), Ok(()));
    assert_eq!(wlunes.total_supply(), 0);
    assert_eq!(wlunes.balance_of(alice()), 0);
}

#[test]
fn reasonable_amount_limit_is_a_thousandth_of_the_range() {
    assert_eq!(MAX_REASONABLE_AMOUNT, 340282366920938463463374607431768211);
    let mut wlunes = isolated_ledger();
    let mut env = host(alice());
    env.balance = u128::MAX;

    env.transferred_value = MAX_REASONABLE_AMOUNT + 1;
    assert_eq!(wlunes.deposit(&env), Err(Error::AmountTooLarge));
    assert_eq!(
        wlunes.take_events(),
        vec![alert(ALERT_SUSPICIOUS_AMOUNT, alice(), MAX_REASONABLE_AMOUNT + 1)]
    );
    assert_eq!(wlunes.withdraw(&env, MAX_REASONABLE_AMOUNT + 1), Err(Error::AmountTooLarge));
    assert_eq!(
        wlunes.take_events(),
        vec![alert(ALERT_SUSPICIOUS_AMOUNT, alice(), MAX_REASONABLE_AMOUNT + 1)]
    );

    env.transferred_value = MAX_REASONABLE_AMOUNT;
    assert_eq!(wlunes.deposit(&env), Ok(()));
    assert_eq!(
        wlunes.withdraw(&env, MAX_REASONABLE_AMOUNT),
        Ok(Payout { to: alice(), amount: MAX_REASONABLE_AMOUNT })
    );
}

#[test]
fn supply_bound_is_half_the_range() {
    assert_eq!(MAX_SUPPLY, 170141183460469231731687303715884105727);
}

// ---- the execution budget ----

#[test]
fn live_ledger_refuses_a_budget_under_the_minimum() {
    let mut wlunes = live_ledger();
    let mut env = live_host(alice());
    env.transferred_value = 100;
    env.balance = 100;

    env.gas_left = 999_999;
    assert_eq!(wlunes.deposit(&env), Err(Error::GasLimitExceeded));
    assert_eq!(wlunes.take_events(), vec![alert(ALERT_GAS_LIMIT, alice(), 999_999)]);
    env.gas_left = 0;
    assert_eq!(wlunes.deposit(&env), Err(Error::GasLimitExceeded));
    assert_eq!(wlunes.take_events(), vec![alert(ALERT_GAS_LIMIT, alice(), 0)]);
    assert_eq!(wlunes.total_supply(), 0);

    env.gas_left = 1_000_000;
    assert_eq!(wlunes.deposit(&env), Ok(()));
}

#[test]
fn isolated_ledger_ignores_the_budget() {
    let mut wlunes = isolated_ledger();
    let mut env = host(alice());
    env.transferred_value = 100;
    env.gas_left = 1;
    assert_eq!(wlunes.deposit(&env), Ok(()));
}

#[test]
fn transfers_are_not_held_to_the_budget() {
    let mut wlunes = live_ledger();
    let mut env = live_host(alice());
    env.transferred_value = 100;
    env.balance = 100;
    assert_eq!(wlunes.deposit(&env), Ok(()));
    env.gas_left = 1;
    assert_eq!(wlunes.transfer(&env, bob(), 10, vec![]), Ok(()));
    assert_eq!(wlunes.approve(&env, bob(), 10), Ok(()));
    assert_eq!(wlunes.burn(&env, alice(), 10), Err(Error::InvalidState));
}

// ---- the rate limiter ----

#[test]
fn live_ledger_makes_a_caller_wait_out_the_cooldown() {
    let mut wlunes = live_ledger();
    let mut env = live_host(alice());
    env.transferred_value = 100;

    env.block_timestamp = 5_000;
    env.balance = 100;
    assert_eq!(wlunes.deposit(&env), Ok(()));
    wlunes.take_events();

    env.block_timestamp = 5_999;
    env.balance = 200;
    assert_eq!(wlunes.deposit(&env), Err(Error::OperationBlocked));
    assert_eq!(wlunes.take_events(), vec![alert(ALERT_RATE_LIMIT, alice(), 999)]);
    assert_eq!(wlunes.total_supply(), 100);

    // Another caller is not held up.
    let mut other = env;
    other.caller = bob();
    assert_eq!(wlunes.deposit(&other), Ok(()));

    env.block_timestamp = 6_000;
    env.balance = 300;
    assert_eq!(wlunes.deposit(&env), Ok(()));
    assert_eq!(wlunes.total_supply(), 300);
}

#[test]
fn cooldown_counts_from_time_zero_for_a_new_caller() {
    let mut wlunes = live_ledger();
    let mut env = live_host(alice());
    env.transferred_value = 100;
    env.balance = 100;
    env.block_timestamp = 999;
    assert_eq!(wlunes.deposit(&env), Err(Error::OperationBlocked));
    assert_eq!(wlunes.take_events(), vec![alert(ALERT_RATE_LIMIT, alice(), 999)]);
    env.block_timestamp = 1_000;
    assert_eq!(wlunes.deposit(&env), Ok(()));
}

#[test]
fn refused_call_is_not_recorded_by_the_rate_limiter() {
    let mut wlunes = live_ledger();
    let mut env = live_host(alice());
    env.transferred_value = 100;
    env.balance = 999;
    // Passes the rate limiter, then fails on the reserve: nothing is recorded.
    assert_eq!(wlunes.deposit(&env), Err(Error::InvalidState));
    let snapshot = wlunes.snapshot();
    assert_eq!(snapshot.last_transaction, vec![]);
    assert_eq!(snapshot.transaction_count, vec![]);

    env.balance = 100;
    assert_eq!(wlunes.deposit(&env), Ok(()));
    let snapshot = wlunes.snapshot();
    assert_eq!(snapshot.last_transaction, vec![(alice(), 10_000)]);
    assert_eq!(snapshot.transaction_count, vec![(alice(), 1)]);
}

#[test]
fn isolated_ledger_keeps_no_rate_records() {
    let mut wlunes = isolated_ledger();
    let mut env = host(alice());
    env.transferred_value = 100;
    assert_eq!(wlunes.deposit(&env), Ok(()));
    assert_eq!(wlunes.deposit(&env), Ok(()));
    let snapshot = wlunes.snapshot();
    assert_eq!(snapshot.last_transaction, vec![]);
    assert_eq!(snapshot.transaction_count, vec![]);
}

#[test]
fn cooldown_that_runs_past_the_end_of_time_never_ends() {
    let mut snapshot = live_ledger().snapshot();
    snapshot.last_transaction = vec![(alice(), u64::MAX - 500)];
    snapshot.transaction_count = vec![(alice(), 1)];
    let mut wlunes = Wlunes::restore(snapshot).unwrap();
    let mut env = live_host(alice());
    env.transferred_value = 100;
    env.balance = 100;
    env.block_timestamp = u64::MAX;
    assert_eq!(wlunes.deposit(&env), Err(Error::OperationBlocked));
    assert_eq!(wlunes.take_events(), vec![alert(ALERT_RATE_LIMIT, alice(), 500)]);
}

#[test]
fn clock_that_runs_backwards_reports_no_time_elapsed() {
    let mut snapshot = live_ledger().snapshot();
    snapshot.last_transaction = vec![(alice(), 50_000)];
    let mut wlunes = Wlunes::restore(snapshot).unwrap();
    let mut env = live_host(alice());
    env.transferred_value = 100;
    env.balance = 100;
    env.block_timestamp = 40_000;
    assert_eq!(wlunes.deposit(&env), Err(Error::OperationBlocked));
    assert_eq!(wlunes.take_events(), vec![alert(ALERT_RATE_LIMIT, alice(), 0)]);
}

// ---- suspicious patterns ----

#[test]
fn too_many_transactions_in_the_first_hour_are_blocked() {
    let mut wlunes = live_ledger();
    let mut env = live_host(alice());
    env.transferred_value = 1;
    for n in 1..=100u64 {
        env.block_timestamp = n * 1_000;
        env.balance = n as u128;
        assert_eq!(wlunes.deposit(&env), Ok(()));
    }
    wlunes.take_events();
    assert_eq!(wlunes.snapshot().transaction_count, vec![(alice(), 100)]);

    env.block_timestamp = 101_000;
    env.balance = 101;
    assert_eq!(wlunes.deposit(&env), Err(Error::OperationBlocked));
    assert_eq!(wlunes.take_events(), vec![alert(ALERT_SUSPICIOUS_COUNT, alice(), 101)]);
    assert_eq!(wlunes.snapshot().transaction_count, vec![(alice(), 100)]);

    env.block_timestamp = 3_599_999;
    assert_eq!(wlunes.deposit(&env), Err(Error::OperationBlocked));
    env.block_timestamp = 3_600_000;
    assert_eq!(wlunes.deposit(&env), Ok(()));
    assert_eq!(wlunes.snapshot().transaction_count, vec![(alice(), 101)]);
}

#[test]
fn transaction_count_stops_at_its_maximum() {
    let mut snapshot = live_ledger().snapshot();
    snapshot.transaction_count = vec![(alice(), u32::MAX)];
    let mut wlunes = Wlunes::restore(snapshot).unwrap();
    let mut env = live_host(alice());
    env.transferred_value = 100;
    env.balance = 100;
    env.block_timestamp = 4_000_000;
    assert_eq!(wlunes.deposit(&env), Ok(()));
    let snapshot = wlunes.snapshot();
    assert_eq!(snapshot.transaction_count, vec![(alice(), u32::MAX)]);
    assert_eq!(snapshot.last_transaction, vec![(alice(), 4_000_000)]);
}

// ---- approve and burn ----

#[test]
fn approval_sets_the_allowance_outright() {
    let mut wlunes = isolated_ledger();
    let env = host(alice());
    assert_eq!(wlunes.approve(&env, bob(), 100), Ok(()));
    assert_eq!(wlunes.approve(&env, bob(), 30), Ok(()));
    assert_eq!(wlunes.allowance(alice(), bob()), 30);
    assert_eq!(wlunes.allowance(bob(), alice()), 0);
    assert_eq!(wlunes.approve(&env, bob(), 0), Ok(()));
    assert_eq!(wlunes.allowance(alice(), bob()), 0);
}

#[test]
fn approving_oneself_is_refused_unless_for_nothing() {
    let mut wlunes = isolated_ledger();
    let env = host(alice());
    assert_eq!(wlunes.approve(&env, alice(), 1), Err(Error::InvalidState));
    assert_eq!(wlunes.approve(&env, alice(), 0), Ok(()));
}

#[test]
fn burning_ones_own_tokens_needs_no_allowance() {
    let mut wlunes = funded(alice(), 100);
    assert_eq!(wlunes.burn(&host(alice()), alice(), 100), Ok(()));
    assert_eq!(wlunes.balance_of(alice()), 0);
    assert_eq!(wlunes.total_supply(), 0);
    // The account stays in the books with nothing.
    assert_eq!(wlunes.snapshot().balances, vec![(alice(), 0)]);
}

#[test]
fn balance_is_checked_before_allowance_in_a_burn() {
    let mut wlunes = funded(alice(), 100);
    assert_eq!(wlunes.burn(&host(bob()), alice(), 101), Err(Error::InsufficientBalance));
    assert_eq!(wlunes.burn(&host(bob()), alice(), 100), Err(Error::InsufficientAllowance));
}

// ---- notifications ----

#[test]
fn each_operation_notifies_what_it_did() {
    let mut wlunes = isolated_ledger();
    let mut env = host(alice());
    env.block_timestamp = 77;
    env.transferred_value = 100;
    env.balance = 100;

    assert_eq!(wlunes.deposit(&env), Ok(()));
    assert_eq!(
        wlunes.take_events(),
        vec![
            Event::Transfer(Transfer { from: None, to: Some(alice()), value: 100 }),
            Event::Deposit(Deposit { account: alice(), amount: 100, timestamp: 77 }),
        ]
    );

    assert_eq!(wlunes.transfer(&env, bob(), 30, vec![]), Ok(()));
    assert_eq!(
        wlunes.take_events(),
        vec![Event::Transfer(Transfer { from: Some(alice()), to: Some(bob()), value: 30 })]
    );

    assert_eq!(wlunes.approve(&env, bob(), 50), Ok(()));
    assert_eq!(
        wlunes.take_events(),
        vec![Event::Approval(Approval { owner: alice(), spender: bob(), value: 50 })]
    );

    let mut spender = env;
    spender.caller = bob();
    assert_eq!(wlunes.transfer_from(&spender, alice(), charlie(), 20, vec![]), Ok(()));
    assert_eq!(
        wlunes.take_events(),
        vec![Event::Transfer(Transfer { from: Some(alice()), to: Some(charlie()), value: 20 })]
    );

    assert_eq!(wlunes.burn(&spender, alice(), 10), Ok(()));
    assert_eq!(
        wlunes.take_events(),
        vec![Event::Transfer(Transfer { from: Some(alice()), to: None, value: 10 })]
    );

    env.block_timestamp = 99;
    assert_eq!(wlunes.withdraw(&env, 40), Ok(Payout { to: alice(), amount: 40 }));
    assert_eq!(
        wlunes.take_events(),
        vec![
            Event::Transfer(Transfer { from: Some(alice()), to: None, value: 40 }),
            Event::Withdrawal(Withdrawal { account: alice(), amount: 40, timestamp: 99 }),
        ]
    );
    assert_eq!(wlunes.settle_withdrawal(true), Ok(()));
    assert_eq!(wlunes.take_events(), vec![]);
}

#[test]
fn notifications_queue_up_until_taken() {
    let mut wlunes = isolated_ledger();
    let mut env = host(alice());
    env.transferred_value = 100;
    assert_eq!(wlunes.deposit(&env), Ok(()));
    assert_eq!(wlunes.approve(&env, bob(), 1), Ok(()));
    assert_eq!(wlunes.take_events().len(), 3);
    assert_eq!(wlunes.take_events().len(), 0);
}

// ---- token description ----

#[test]
fn token_describes_itself() {
    let wlunes = isolated_ledger();
    assert_eq!(wlunes.token_name(), Some(String::from("Wrapped Lunes")));
    assert_eq!(wlunes.token_symbol(), Some(String::from("WLUNES")));
    assert_eq!(wlunes.token_decimals(), 8);
}

#[test]
fn new_ledger_is_empty_and_carries_its_configuration() {
    let mut env = host(alice());
    env.block_timestamp = 1234;
    let mut wlunes = Wlunes::new(&env, false);
    assert_eq!(wlunes.total_supply(), 0);
    assert_eq!(wlunes.balance_of(alice()), 0);
    assert_eq!(wlunes.allowance(alice(), bob()), 0);
    assert_eq!(wlunes.take_events(), vec![]);
    let snapshot = wlunes.snapshot();
    assert_eq!(snapshot.deployment_timestamp, 1234);
    assert_eq!(snapshot.transaction_cooldown, 1000);
    assert_eq!(snapshot.max_gas_limit, 1_000_000);
    assert!(!snapshot.isolated);
    assert!(!snapshot.reentrancy_guard);
    assert!(Wlunes::new(&env, true).snapshot().isolated);
}
