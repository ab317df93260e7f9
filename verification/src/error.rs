//! The reasons for which the ledger rejects an operation.

use vstd::prelude::*;

verus! {

/// Why a mutation was rejected. A rejected mutation changes nothing.
#[derive(Clone, Copy, Debug, PartialEq, Eq, Structural)]
pub enum Error {
    /// The source account holds less than the amount to move or to approve.
    InsufficientBalance,
    /// The allowance of the pair of accounts is less than the amount to move.
    ForbiddenTransfer,
}

} // verus!
