//! What holds of every ledger and of every run of operations on it.

use vstd::prelude::*;
use crate::account::Account;
use crate::state::{amount_in, lemma_sum_bounds_each, lemma_sum_insert, LedgerState, Operation};

verus! {

/// A new ledger is valid: its one balance is the total supply.
pub proof fn lemma_genesis_valid(total_supply: u128, owner: Account)
    ensures
        LedgerState::genesis(total_supply, owner).valid(),
        LedgerState::genesis(total_supply, owner).circulating() == total_supply,
{
    lemma_sum_insert(Map::empty(), owner, total_supply);
}

/// Approving changes one allowance and nothing else: the balances, their sum
/// and the total supply stay as they were.
pub proof fn lemma_approve_keeps_balances(
    state: LedgerState,
    owner: Account,
    spender: Account,
    amount: u128,
)
    requires
        state.valid(),
    ensures
        state.approved(owner, spender, amount).valid(),
        state.approved(owner, spender, amount).balances == state.balances,
        state.approved(owner, spender, amount).total_supply == state.total_supply,
        state.approved(owner, spender, amount).allowance_of(owner, spender) == amount,
        forall|other_owner: Account, other_spender: Account|
            (other_owner, other_spender) != (owner, spender) ==> #[trigger] state.approved(
                owner,
                spender,
                amount,
            ).allowance_of(other_owner, other_spender) == state.allowance_of(
                other_owner,
                other_spender,
            ),
{
}

/// A transfer that the balance of `from` covers takes `amount` from `from`
/// and gives it to `to`; every other balance, every allowance and the total
/// supply stay as they were, and so does the sum of the balances.
pub proof fn lemma_transfer_moves_amount(state: LedgerState, from: Account, to: Account, amount: u128)
    requires
        state.valid(),
        amount <= state.balance_of(from),
    ensures
        state.transferred(from, to, amount).valid(),
        state.transferred(from, to, amount).circulating() == state.circulating(),
        state.transferred(from, to, amount).total_supply == state.total_supply,
        state.transferred(from, to, amount).allowances == state.allowances,
        from != to ==> state.transferred(from, to, amount).balance_of(from) == state.balance_of(from)
            - amount,
        from != to ==> state.transferred(from, to, amount).balance_of(to) == state.balance_of(to)
            + amount,
        forall|other: Account|
            other != from && other != to ==> #[trigger] state.transferred(
                from,
                to,
                amount,
            ).balance_of(other) == state.balance_of(other),
{
    let lowered = (state.balance_of(from) - amount) as u128;
    let debited = state.balances.insert(from, lowered);
    lemma_sum_insert(state.balances, from, lowered);
    lemma_sum_bounds_each(debited, to);
    lemma_sum_insert(debited, to, (amount_in(debited, to) + amount) as u128);
}

/// Moving an amount that an account holds from the account to itself leaves
/// every balance as it was.
pub proof fn lemma_self_transfer_keeps_balances(state: LedgerState, account: Account, amount: u128)
    requires
        amount <= state.balance_of(account),
    ensures
        forall|any: Account| #[trigger]
            state.transferred(account, account, amount).balance_of(any) == state.balance_of(any),
        state.transferred(account, account, amount).allowances == state.allowances,
        state.transferred(account, account, amount).total_supply == state.total_supply,
{
}

/// Approving is absolute: of two approvals of one pair, the second alone
/// decides the allowance.
pub proof fn lemma_approve_is_absolute(
    state: LedgerState,
    owner: Account,
    spender: Account,
    first: u128,
    second: u128,
)
    ensures
        state.approved(owner, spender, first).approved(owner, spender, second).allowance_of(
            owner,
            spender,
        ) == second,
        state.approved(owner, spender, first).approved(owner, spender, second) == state.approved(
            owner,
            spender,
            second,
        ),
{
    assert(state.allowances.insert((owner, spender), first).insert((owner, spender), second)
        =~= state.allowances.insert((owner, spender), second));
}

/// A rejected operation leaves the ledger as it was.
pub proof fn lemma_rejection_changes_nothing(state: LedgerState, operation: Operation)
    requires
        state.rejection(operation).is_some(),
    ensures
        state.after(operation) == state,
{
}

/// No operation, accepted or rejected, breaks a valid ledger or changes the
/// sum of its balances.
pub proof fn lemma_operation_conserves(state: LedgerState, operation: Operation)
    requires
        state.valid(),
    ensures
        state.after(operation).valid(),
        state.after(operation).total_supply == state.total_supply,
        state.after(operation).circulating() == state.circulating(),
{
    if state.rejection(operation).is_none() {
        match operation {
            Operation::Approve { owner, spender, amount } => {
                lemma_approve_keeps_balances(state, owner, spender, amount);
            },
            Operation::Transfer { caller, to, value } => {
                lemma_transfer_moves_amount(state, caller, to, value);
            },
            Operation::TransferFrom { caller, from, to, amount } => {
                lemma_transfer_moves_amount(state, from, to, amount);
            },
        }
    }
}

/// Conservation: after any run of operations on a new ledger the balances
/// add up to the total supply that the ledger was made with.
pub proof fn lemma_conservation(total_supply: u128, owner: Account, operations: Seq<Operation>)
    ensures
        LedgerState::genesis(total_supply, owner).after_all(operations).valid(),
        LedgerState::genesis(total_supply, owner).after_all(operations).total_supply
            == total_supply,
        LedgerState::genesis(total_supply, owner).after_all(operations).circulating()
            == total_supply,
    decreases operations.len(),
{
    let start = LedgerState::genesis(total_supply, owner);
    if operations.len() == 0 {
        lemma_genesis_valid(total_supply, owner);
    } else {
        lemma_conservation(total_supply, owner, operations.drop_last());
        lemma_operation_conserves(start.after_all(operations.drop_last()), operations.last());
    }
}

} // verus!
