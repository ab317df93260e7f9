//! The ledger and its operations.

use vstd::prelude::*;
use crate::account::Account;
use crate::error::Error;
use crate::events::{Approval, Transfer};
use crate::state::{
    amount_in, has_room, lemma_sum_bounds_each, lemma_sum_insert, moved, sum_of, LedgerState,
    Operation,
};
use crate::store::{allowance_entries, balance_entries, Allowances, Balances};

verus! {

impl Balances {
    /// The balance of `account`: the value of its entry, and zero where it has
    /// none.
    pub(crate) fn balance_of(&self, account: Account) -> (balance: u128)
        ensures
            balance == amount_in(balance_entries(*self), account),
        no_unwind
    {
        match self.get(account) {
            Some(balance) => *balance,
            None => 0,
        }
    }

    /// Takes `amount` from `from`, then gives it to `to`.
    pub(crate) fn shift(&mut self, from: Account, to: Account, amount: u128)
        requires
            balance_entries(*old(self)).dom().finite(),
            sum_of(balance_entries(*old(self))) <= u128::MAX,
            amount <= amount_in(balance_entries(*old(self)), from),
            has_room(balance_entries(*old(self)), from),
            has_room(balance_entries(*old(self)).insert(from, 0), to),
        ensures
            balance_entries(*final(self)).dom().finite(),
            sum_of(balance_entries(*final(self))) == sum_of(balance_entries(*old(self))),
            balance_entries(*final(self)) == moved(balance_entries(*old(self)), from, to, amount),
        no_unwind
    {
        let ghost before = balance_entries(*self);
        let from_balance = self.balance_of(from);
        self.insert(from, from_balance - amount);
        let ghost debited = balance_entries(*self);
        let to_balance = self.balance_of(to);
        proof {
            assert(debited.dom() =~= before.insert(from, 0).dom());
            lemma_sum_insert(before, from, (from_balance - amount) as u128);
            lemma_sum_bounds_each(debited, to);
            lemma_sum_insert(debited, to, (to_balance + amount) as u128);
        }
        self.insert(to, to_balance + amount);
    }
}

/// A ledger of a fungible token: a fixed total supply, shared out among
/// accounts, and the allowances that accounts have granted.
///
/// At every moment the balances add up to the total supply.
pub struct Erc20 {
    /// The total supply.
    total_supply: u128,
    /// The balance of each account.
    balances: Balances,
    /// The allowance of each pair of owner and spender.
    allowance: Allowances,
}

impl View for Erc20 {
    type V = LedgerState;

    closed spec fn view(&self) -> LedgerState {
        LedgerState {
            total_supply: self.total_supply,
            balances: balance_entries(self.balances),
            allowances: allowance_entries(self.allowance),
        }
    }
}

impl Erc20 {
    #[verifier::type_invariant]
    spec fn valid(self) -> bool {
        self@.valid()
    }

    /// A ledger whose whole supply belongs to `initial_owner`.
    pub fn new(total_supply: u128, initial_owner: Account) -> (ledger: Erc20)
        ensures
            ledger@ == LedgerState::genesis(total_supply, initial_owner),
            ledger@.valid(),
    {
        let mut balances = Balances::new();
        let allowance = Allowances::new();
        proof {
            assert(balance_entries(balances) =~= Map::empty());
            assert(allowance_entries(allowance) =~= Map::empty());
            lemma_sum_insert(balance_entries(balances), initial_owner, total_supply);
        }
        balances.insert(initial_owner, total_supply);
        Erc20 { total_supply, balances, allowance }
    }

    /// The total supply, which is the sum of all balances.
    pub fn total_supply(&self) -> (supply: u128)
        ensures
            supply == self@.total_supply,
            supply == self@.circulating(),
            self@.valid(),
    {
        proof {
            use_type_invariant(self);
        }
        self.total_supply
    }

    /// The balance of `owner`: zero for an account that the ledger has never
    /// seen.
    pub fn balance_of(&self, owner: Account) -> (balance: u128)
        ensures
            balance == self@.balance_of(owner),
    {
        self.balances.balance_of(owner)
    }

    /// The amount that a delegated transfer may move from `owner` to
    /// `spender`: zero for a pair that has never been approved.
    pub fn allowance_of(&self, owner: Account, spender: Account) -> (allowance: u128)
        ensures
            allowance == self@.allowance_of(owner, spender),
    {
        match self.allowance.get(owner, spender) {
            Some(allowance) => *allowance,
            None => 0,
        }
    }

    /// Whether the allowances can take a value for the pair
    /// `(owner, spender)`: always, but for a new pair in a map that is full.
    pub fn approval_fits(&self, owner: Account, spender: Account) -> (fits: bool)
        ensures
            fits == self@.approval_fits(owner, spender),
    {
        proof {
            use_type_invariant(self);
        }
        self.allowance.get(owner, spender).is_some() || self.allowance.len() < u32::MAX
    }

    /// Whether the balances can take a value for `from` and then one for
    /// `to`: always, but for new accounts in a map that is full.
    pub fn transfer_fits(&self, from: Account, to: Account) -> (fits: bool)
        ensures
            fits == self@.transfer_fits(from, to),
    {
        proof {
            use_type_invariant(self);
        }
        let count = self.balances.len();
        let has_from = self.balances.get(from).is_some();
        if !has_from && count == u32::MAX {
            return false;
        }
        if from == to || self.balances.get(to).is_some() {
            return true;
        }
        if has_from {
            count < u32::MAX
        } else {
            count < u32::MAX - 1
        }
    }

    /// Sets the allowance of the pair `(owner, spender)` to `amount`, provided
    /// that `owner` holds at least `amount` now. The new allowance replaces
    /// the old one. On success the event to record is returned; on failure
    /// nothing changes.
    ///
    /// The allowances must be able to take the value where the approval is
    /// granted.
    pub fn approve(&mut self, owner: Account, spender: Account, amount: u128) -> (outcome: Result<
        Approval,
        Error,
    >)
        requires
            amount <= old(self)@.balance_of(owner) ==> old(self)@.approval_fits(owner, spender),
        ensures
            match outcome {
                Ok(event) => {
                    &&& amount <= old(self)@.balance_of(owner)
                    &&& final(self)@ == old(self)@.approved(owner, spender, amount)
                    &&& event == (Approval { owner, spender, amount })
                },
                Err(error) => {
                    &&& amount > old(self)@.balance_of(owner)
                    &&& error == Error::InsufficientBalance
                    &&& final(self)@ == old(self)@
                },
            },
            final(self)@ == old(self)@.after((Operation::Approve { owner, spender, amount })),
            final(self)@.valid(),
    {
        proof {
            use_type_invariant(&*self);
        }
        let owner_balance = self.balance_of(owner);
        if amount > owner_balance {
            return Err(Error::InsufficientBalance);
        }
        self.allowance.insert(owner, spender, amount);
        Ok(Approval { owner, spender, amount })
    }

    /// Moves `amount` from the balance of `caller`, the account that invokes
    /// the operation, to that of `to`. On success the event to record is
    /// returned; on failure nothing changes.
    ///
    /// The balances must be able to take the two values where the amount is
    /// moved.
    pub fn transfer(&mut self, caller: Account, to: Account, value: u128) -> (outcome: Result<
        Transfer,
        Error,
    >)
        requires
            value <= old(self)@.balance_of(caller) ==> old(self)@.transfer_fits(caller, to),
        ensures
            match outcome {
                Ok(event) => {
                    &&& value <= old(self)@.balance_of(caller)
                    &&& final(self)@ == old(self)@.transferred(caller, to, value)
                    &&& event == (Transfer { from: caller, to, amount: value })
                },
                Err(error) => {
                    &&& value > old(self)@.balance_of(caller)
                    &&& error == Error::InsufficientBalance
                    &&& final(self)@ == old(self)@
                },
            },
            final(self)@ == old(self)@.after((Operation::Transfer { caller, to, value })),
            final(self)@.valid(),
    {
        self._transfer_helper(caller, to, value)
    }

    /// Moves `amount` from the balance of `from` to that of `to`, provided
    /// that the allowance of the pair `(from, to)` is at least `amount`. The
    /// allowance is looked up by source and destination: `caller`, the account
    /// that invokes the operation, takes no part in it. The allowance is left
    /// as it is. On success the event to record is returned; on failure
    /// nothing changes.
    ///
    /// The balances must be able to take the two values where the amount is
    /// moved.
    pub fn transfer_from(&mut self, caller: Account, from: Account, to: Account, amount: u128) -> (outcome:
        Result<Transfer, Error>)
        requires
            amount <= old(self)@.allowance_of(from, to) && amount <= old(self)@.balance_of(from)
                ==> old(self)@.transfer_fits(from, to),
        ensures
            match outcome {
                Ok(event) => {
                    &&& amount <= old(self)@.allowance_of(from, to)
                    &&& amount <= old(self)@.balance_of(from)
                    &&& final(self)@ == old(self)@.transferred(from, to, amount)
                    &&& event == (Transfer { from, to, amount })
                },
                Err(error) => {
                    &&& final(self)@ == old(self)@
                    &&& error == (if amount > old(self)@.allowance_of(from, to) {
                        Error::ForbiddenTransfer
                    } else {
                        Error::InsufficientBalance
                    })
                    &&& amount > old(self)@.allowance_of(from, to) || amount > old(self)@.balance_of(from)
                },
            },
            final(self)@ == old(self)@.after((Operation::TransferFrom { caller, from, to, amount })),
            final(self)@.valid(),
    {
        proof {
            use_type_invariant(&*self);
        }
        if amount > self.allowance_of(from, to) {
            return Err(Error::ForbiddenTransfer);
        }
        self._transfer_helper(from, to, amount)
    }

    /// The transfer that `transfer` and `transfer_from` share.
    fn _transfer_helper(&mut self, from: Account, to: Account, amount: u128) -> (outcome: Result<
        Transfer,
        Error,
    >)
        requires
            amount <= old(self)@.balance_of(from) ==> old(self)@.transfer_fits(from, to),
        ensures
            match outcome {
                Ok(event) => {
                    &&& amount <= old(self)@.balance_of(from)
                    &&& final(self)@ == old(self)@.transferred(from, to, amount)
                    &&& event == (Transfer { from, to, amount })
                },
                Err(error) => {
                    &&& amount > old(self)@.balance_of(from)
                    &&& error == Error::InsufficientBalance
                    &&& final(self)@ == old(self)@
                },
            },
            final(self)@.valid(),
    {
        proof {
            use_type_invariant(&*self);
        }
        let from_balance = self.balance_of(from);
        if from_balance < amount {
            return Err(Error::InsufficientBalance);
        }
        self.balances.shift(from, to, amount);
        Ok(Transfer { from, to, amount })
    }
}

} // verus!
