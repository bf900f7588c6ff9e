//! Value held in custody by a game record, and the movements the ledger is
//! asked to make.
//!
//! The engine never moves value itself. Each operation that funds or pays
//! out a game returns the [`Transfer`] that the ledger must perform together
//! with the change to the record, and keeps the record's `custody` equal to
//! what the ledger holds for it once the transfer is done. A transfer moves
//! at most what fits in 64 bits; custody is counted in 128 bits, so that it
//! can hold both stakes whatever the wager.

use vstd::prelude::*;
use crate::address::Address;
use crate::error::ArciumMxeError;

verus! {

/// The smallest stake a game may be opened with.
pub const MIN_WAGER: u64 = 1_000_000;

/// One movement of value between a party and a game record.
#[derive(Clone, Copy, Debug, PartialEq, Eq)]
pub enum Transfer {
    /// `amount` leaves the balance of `from` and enters the record's custody.
    Deposit { from: Address, amount: u64 },
    /// `amount` leaves the record's custody and enters the balance of `to`.
    Payout { to: Address, amount: u64 },
}

impl Transfer {
    /// The units this transfer adds to the record's custody.
    pub open spec fn deposited(self) -> int {
        match self {
            Transfer::Deposit { amount, .. } => amount as int,
            Transfer::Payout { .. } => 0,
        }
    }

    /// The units this transfer takes out of the record's custody.
    pub open spec fn paid_out(self) -> int {
        match self {
            Transfer::Deposit { .. } => 0,
            Transfer::Payout { amount, .. } => amount as int,
        }
    }
}

/// The whole pot of a two-player game: both stakes.
pub open spec fn pot(wager: u64) -> int {
    2 * wager
}

/// Both stakes together, or `Overflow` where they do not fit in 64 bits.
pub fn total_pot(wager: u64) -> (r: Result<u64, ArciumMxeError>)
    ensures
        pot(wager) <= u64::MAX ==> r == Ok::<u64, ArciumMxeError>(pot(wager) as u64),
        pot(wager) > u64::MAX ==> r == Err::<u64, ArciumMxeError>(ArciumMxeError::Overflow),
{
    match wager.checked_mul(2) {
        Some(total) => Ok(total),
        None => Err(ArciumMxeError::Overflow),
    }
}

/// What is left of `custody` once `amount` has been paid out of it, or
/// `InsufficientFunds` where less than `amount` is held.
pub fn debit(custody: u128, amount: u64) -> (r: Result<u128, ArciumMxeError>)
    ensures
        amount <= custody ==> r == Ok::<u128, ArciumMxeError>((custody - amount) as u128),
        amount > custody ==> r == Err::<u128, ArciumMxeError>(ArciumMxeError::InsufficientFunds),
{
    match custody.checked_sub(amount as u128) {
        Some(rest) => Ok(rest),
        None => Err(ArciumMxeError::InsufficientFunds),
    }
}

/// What `custody` becomes once `amount` has been paid into it, or `Overflow`
/// where the sum does not fit in 128 bits.
pub fn credit(custody: u128, amount: u64) -> (r: Result<u128, ArciumMxeError>)
    ensures
        custody + amount <= u128::MAX ==> r == Ok::<u128, ArciumMxeError>(
            (custody + amount) as u128,
        ),
        custody + amount > u128::MAX ==> r == Err::<u128, ArciumMxeError>(
            ArciumMxeError::Overflow,
        ),
{
    match custody.checked_add(amount as u128) {
        Some(total) => Ok(total),
        None => Err(ArciumMxeError::Overflow),
    }
}

/// What a record holds in custody: what its account holds beyond the
/// minimum that keeps the account alive, and nothing where it holds less.
pub open spec fn custody_in(balance: u64, rent_minimum: u64) -> u128 {
    if balance >= rent_minimum {
        (balance - rent_minimum) as u128
    } else {
        0
    }
}

/// The custody of a record whose account holds `balance`, of which
/// `rent_minimum` keeps the account alive.
pub fn custody_of(balance: u64, rent_minimum: u64) -> (custody: u128)
    ensures
        custody == custody_in(balance, rent_minimum),
{
    if balance >= rent_minimum {
        (balance - rent_minimum) as u128
    } else {
        0
    }
}

} // verus!
