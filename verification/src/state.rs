//! The mathematical model of the ledger: what a ledger holds, what each
//! operation makes of it, and the sum of all balances.

use vstd::prelude::*;
use crate::account::Account;
use crate::error::Error;

verus! {

/// The amount that a map gives to a key: the value of its entry, and zero
/// where the map has no entry for the key.
pub open spec fn amount_in<K>(entries: Map<K, u128>, key: K) -> u128 {
    if entries.contains_key(key) {
        entries[key]
    } else {
        0
    }
}

/// Whether a storage map with these entries can take a value for `key`: it has
/// an entry for the key already, or its number of entries, which it counts in
/// a `u32`, can still grow by one.
pub open spec fn has_room<K>(entries: Map<K, u128>, key: K) -> bool {
    entries.contains_key(key) || entries.len() < u32::MAX
}

/// The balances after `amount` has been taken from `from` and then given to
/// `to`. The balance of `to` is read after that of `from` has been lowered, so
/// moving an amount from an account to itself leaves its balance as it was.
pub open spec fn moved(balances: Map<Account, u128>, from: Account, to: Account, amount: u128) -> Map<
    Account,
    u128,
> {
    let debited = balances.insert(from, (amount_in(balances, from) - amount) as u128);
    debited.insert(to, (amount_in(debited, to) + amount) as u128)
}

/// The sum of the values of a finite map of balances, and zero for a map that
/// is not finite.
pub open spec fn sum_of(balances: Map<Account, u128>) -> nat
    decreases balances.dom().len(),
{
    if balances.dom().finite() && balances.dom().len() > 0 {
        let account = balances.dom().choose();
        balances[account] as nat + sum_of(balances.remove(account))
    } else {
        0
    }
}

/// The sum of a finite map is the value of any one of its entries plus the
/// sum of the others.
pub proof fn lemma_sum_split(balances: Map<Account, u128>, account: Account)
    requires
        balances.dom().finite(),
        balances.contains_key(account),
    ensures
        sum_of(balances) == balances[account] as nat + sum_of(balances.remove(account)),
    decreases balances.dom().len(),
{
    let chosen = balances.dom().choose();
    if chosen != account {
        lemma_sum_split(balances.remove(chosen), account);
        lemma_sum_split(balances.remove(account), chosen);
        assert(balances.remove(chosen).remove(account) =~= balances.remove(account).remove(chosen));
    }
}

/// No balance of a finite map is more than the sum of all of them.
pub proof fn lemma_sum_bounds_each(balances: Map<Account, u128>, account: Account)
    requires
        balances.dom().finite(),
    ensures
        amount_in(balances, account) <= sum_of(balances),
{
    if balances.contains_key(account) {
        lemma_sum_split(balances, account);
    }
}

/// Setting the balance of one account changes the sum by the difference
/// between the new balance and the old one.
pub proof fn lemma_sum_insert(balances: Map<Account, u128>, account: Account, amount: u128)
    requires
        balances.dom().finite(),
    ensures
        sum_of(balances.insert(account, amount)) == sum_of(balances) - amount_in(balances, account)
            + amount,
{
    let updated = balances.insert(account, amount);
    lemma_sum_split(updated, account);
    assert(updated.remove(account) =~= balances.remove(account));
    if balances.contains_key(account) {
        lemma_sum_split(balances, account);
    } else {
        assert(balances.remove(account) =~= balances);
    }
}

/// What a ledger holds: the fixed total supply, the balance of each account
/// that has an entry, and the allowance of each pair of owner and spender that
/// has an entry. An account or a pair without an entry stands at zero.
pub struct LedgerState {
    pub total_supply: u128,
    pub balances: Map<Account, u128>,
    pub allowances: Map<(Account, Account), u128>,
}

impl LedgerState {
    /// The ledger in which `owner` holds the whole supply and nothing has
    /// been approved.
    pub open spec fn genesis(total_supply: u128, owner: Account) -> LedgerState {
        LedgerState {
            total_supply,
            balances: Map::empty().insert(owner, total_supply),
            allowances: Map::empty(),
        }
    }

    /// The balance of `account`.
    pub open spec fn balance_of(self, account: Account) -> u128 {
        amount_in(self.balances, account)
    }

    /// The amount that may be moved from `owner` to `spender` by a delegated
    /// transfer.
    pub open spec fn allowance_of(self, owner: Account, spender: Account) -> u128 {
        amount_in(self.allowances, (owner, spender))
    }

    /// The sum of all balances.
    pub open spec fn circulating(self) -> nat {
        sum_of(self.balances)
    }

    /// Conservation: finitely many accounts have an entry, and their
    /// balances add up to the total supply.
    pub open spec fn conserved(self) -> bool {
        &&& self.balances.dom().finite()
        &&& self.circulating() == self.total_supply
    }

    /// What holds of every ledger: both maps are finite, and the balances
    /// add up to the total supply.
    pub open spec fn valid(self) -> bool {
        &&& self.conserved()
        &&& self.allowances.dom().finite()
    }

    /// Whether the allowances can take a value for the pair
    /// `(owner, spender)`.
    pub open spec fn approval_fits(self, owner: Account, spender: Account) -> bool {
        has_room(self.allowances, (owner, spender))
    }

    /// Whether the balances can take a value for `from` and then one for
    /// `to`.
    pub open spec fn transfer_fits(self, from: Account, to: Account) -> bool {
        &&& has_room(self.balances, from)
        &&& has_room(self.balances.insert(from, 0), to)
    }

    /// The ledger after the allowance of the pair `(owner, spender)` has been
    /// set to `amount`, whatever it was before.
    pub open spec fn approved(self, owner: Account, spender: Account, amount: u128) -> LedgerState {
        LedgerState { allowances: self.allowances.insert((owner, spender), amount), ..self }
    }

    /// The ledger after `amount` has been moved from `from` to `to`.
    pub open spec fn transferred(self, from: Account, to: Account, amount: u128) -> LedgerState {
        LedgerState { balances: moved(self.balances, from, to, amount), ..self }
    }
}

/// A request to change the ledger.
pub enum Operation {
    /// `owner` sets the allowance of `spender` to `amount`.
    Approve { owner: Account, spender: Account, amount: u128 },
    /// `caller` moves `value` from its own balance to that of `to`.
    Transfer { caller: Account, to: Account, value: u128 },
    /// `caller` moves `amount` from the balance of `from` to that of `to`,
    /// under the allowance of the pair `(from, to)`.
    TransferFrom { caller: Account, from: Account, to: Account, amount: u128 },
}

impl LedgerState {
    /// The error with which the ledger rejects `operation`, if it does.
    pub open spec fn rejection(self, operation: Operation) -> Option<Error> {
        match operation {
            Operation::Approve { owner, spender, amount } => if amount > self.balance_of(owner) {
                Some(Error::InsufficientBalance)
            } else {
                None
            },
            Operation::Transfer { caller, to, value } => if value > self.balance_of(caller) {
                Some(Error::InsufficientBalance)
            } else {
                None
            },
            Operation::TransferFrom { caller, from, to, amount } => if amount > self.allowance_of(
                from,
                to,
            ) {
                Some(Error::ForbiddenTransfer)
            } else if amount > self.balance_of(from) {
                Some(Error::InsufficientBalance)
            } else {
                None
            },
        }
    }

    /// The ledger after `operation`: changed as the operation says where it
    /// is accepted, and as it was where it is rejected.
    pub open spec fn after(self, operation: Operation) -> LedgerState {
        if self.rejection(operation).is_some() {
            self
        } else {
            match operation {
                Operation::Approve { owner, spender, amount } => self.approved(owner, spender, amount),
                Operation::Transfer { caller, to, value } => self.transferred(caller, to, value),
                Operation::TransferFrom { caller, from, to, amount } => self.transferred(
                    from,
                    to,
                    amount,
                ),
            }
        }
    }

    /// The ledger after each of `operations` in turn.
    pub open spec fn after_all(self, operations: Seq<Operation>) -> LedgerState
        decreases operations.len(),
    {
        if operations.len() == 0 {
            self
        } else {
            self.after_all(operations.drop_last()).after(operations.last())
        }
    }
}

} // verus!
