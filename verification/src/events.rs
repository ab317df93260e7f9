//! The events that successful mutations hand to the host's event log.

use vstd::prelude::*;
use crate::account::Account;

verus! {

/// Recorded when `owner` sets the allowance of `spender` to `amount`.
#[derive(Clone, Copy, Debug, PartialEq, Eq)]
pub struct Approval {
    pub owner: Account,
    pub spender: Account,
    pub amount: u128,
}

/// Recorded when `amount` moves from the balance of `from` to that of `to`.
#[derive(Clone, Copy, Debug, PartialEq, Eq)]
pub struct Transfer {
    pub from: Account,
    pub to: Account,
    pub amount: u128,
}

} // verus!
