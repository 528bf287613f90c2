//! Balances and the one transfer primitive that every operation uses.

use vstd::prelude::*;

use crate::errors::EscrowError;
use crate::identity::Identity;

verus! {

/// A plain holding of value: a participant's own funds, or a protocol-owned
/// vault that stores no record.
#[derive(Clone, Copy, Debug, PartialEq, Eq)]
pub struct Wallet {
    pub key: Identity,
    pub balance: u64,
}

/// A stored record together with the value held at its address.
#[derive(Clone, Copy, Debug, PartialEq, Eq)]
pub struct Account<T> {
    pub key: Identity,
    pub balance: u64,
    pub data: T,
}

/// A balance less `amount`, or `InsufficientFunds` where it holds less.
pub open spec fn spec_debit(balance: u64, amount: u64) -> Result<u64, EscrowError> {
    if amount > balance {
        Err(EscrowError::InsufficientFunds)
    } else {
        Ok((balance - amount) as u64)
    }
}

/// A balance plus `amount`, or `Overflow` where the sum cannot be represented.
pub open spec fn spec_credit(balance: u64, amount: u64) -> Result<u64, EscrowError> {
    if balance + amount > u64::MAX {
        Err(EscrowError::Overflow)
    } else {
        Ok((balance + amount) as u64)
    }
}

/// Both balances after `amount` has moved from the first to the second. The
/// debit is judged before the credit.
pub open spec fn spec_transfer(from: u64, to: u64, amount: u64) -> Result<(u64, u64), EscrowError> {
    if amount > from {
        Err(EscrowError::InsufficientFunds)
    } else if to + amount > u64::MAX {
        Err(EscrowError::Overflow)
    } else {
        Ok(((from - amount) as u64, (to + amount) as u64))
    }
}

#[verifier::when_used_as_spec(spec_debit)]
pub fn debit(balance: u64, amount: u64) -> (r: Result<u64, EscrowError>)
    ensures
        r == spec_debit(balance, amount),
{
    match balance.checked_sub(amount) {
        Some(rest) => Ok(rest),
        None => Err(EscrowError::InsufficientFunds),
    }
}

#[verifier::when_used_as_spec(spec_credit)]
pub fn credit(balance: u64, amount: u64) -> (r: Result<u64, EscrowError>)
    ensures
        r == spec_credit(balance, amount),
{
    match balance.checked_add(amount) {
        Some(sum) => Ok(sum),
        None => Err(EscrowError::Overflow),
    }
}

/// Moves `amount` between two balances, or refuses and moves nothing.
#[verifier::when_used_as_spec(spec_transfer)]
pub fn transfer(from: u64, to: u64, amount: u64) -> (r: Result<(u64, u64), EscrowError>)
    ensures
        r == spec_transfer(from, to, amount),
        r matches Ok(after) ==> after.0 + after.1 == from + to,
{
    let rest = match debit(from, amount) {
        Ok(rest) => rest,
        Err(e) => {
            return Err(e);
        },
    };
    match credit(to, amount) {
        Ok(sum) => Ok((rest, sum)),
        Err(e) => Err(e),
    }
}

/// A transfer creates and destroys nothing: what leaves one balance arrives
/// in the other.
pub proof fn lemma_transfer_conserves(from: u64, to: u64, amount: u64)
    ensures
        spec_transfer(from, to, amount) matches Ok(after) ==> after.0 + after.1 == from + to && after.0
            == from - amount && after.1 == to + amount,
{
}

} // verus!
