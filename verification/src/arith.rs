//! Checked arithmetic on balances: every change of a balance, an allowance or the
//! supply goes through these two functions.

use vstd::prelude::*;
use crate::error::Error;

verus! {

/// The integer type of balances, allowances and the supply.
pub type Balance = u128;

/// The sum of two balances, or `Overflow` where it does not fit.
pub fn checked_add(a: Balance, b: Balance) -> (sum: Result<Balance, Error>)
    ensures
        a + b <= Balance::MAX ==> sum == Ok::<Balance, Error>((a + b) as Balance),
        a + b > Balance::MAX ==> sum == Err::<Balance, Error>(Error::Overflow),
{
    match a.checked_add(b) {
        Some(s) => Ok(s),
        None => Err(Error::Overflow),
    }
}

/// The difference of two balances, or `Overflow` where it would be negative.
pub fn checked_sub(a: Balance, b: Balance) -> (difference: Result<Balance, Error>)
    ensures
        b <= a ==> difference == Ok::<Balance, Error>((a - b) as Balance),
        b > a ==> difference == Err::<Balance, Error>(Error::Overflow),
{
    match a.checked_sub(b) {
        Some(d) => Ok(d),
        None => Err(Error::Overflow),
    }
}

} // verus!
