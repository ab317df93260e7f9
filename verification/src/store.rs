//! The two storage maps of the ledger, and what is taken on trust about them.
//!
//! Both are `ink_storage::collections::HashMap`s. Verus does not look inside
//! them: each is described by the finite map of its entries, and each call into
//! `ink_storage` is a small function whose contract is stated over that map and
//! believed without proof.

use vstd::prelude::*;
use crate::account::Account;
use crate::state::has_room;
use ink_storage::collections::HashMap;

verus! {

/// The balance of each account that the ledger has an entry for, in an
/// `ink_storage` hash map keyed by `ink_env::AccountId`.
#[verifier::external_body]
pub struct Balances {
    map: HashMap<ink_env::AccountId, u128>,
}

/// The allowance of each pair of owner and spender that the ledger has an
/// entry for, in an `ink_storage` hash map keyed by a pair of
/// `ink_env::AccountId`.
#[verifier::external_body]
pub struct Allowances {
    map: HashMap<(ink_env::AccountId, ink_env::AccountId), u128>,
}

/// The entries of a balance map: the accounts it has a value for, each with
/// that value.
pub uninterp spec fn balance_entries(store: Balances) -> Map<Account, u128>;

/// The entries of an allowance map: the pairs of owner and spender it has a
/// value for, each with that value.
pub uninterp spec fn allowance_entries(store: Allowances) -> Map<(Account, Account), u128>;

impl Balances {
    /// Calls `ink_storage::collections::HashMap::new`. Trusted: the map it
    /// makes has no entry.
    #[verifier::external_body]
    pub(crate) fn new() -> (store: Balances)
        ensures
            forall|account: Account| !balance_entries(store).contains_key(account),
    {
        Balances { map: HashMap::new() }
    }

    /// Calls `ink_storage::collections::HashMap::get` with the account as an
    /// `ink_env::AccountId`. Trusted: it returns the value of the entry for
    /// that account, and nothing where the map has no such entry; it does not
    /// panic.
    #[verifier::external_body]
    pub(crate) fn get(&self, account: Account) -> (found: Option<&u128>)
        ensures
            found == (if balance_entries(*self).contains_key(account) {
                Some(&balance_entries(*self)[account])
            } else {
                None
            }),
        no_unwind
    {
        self.map.get(&ink_env::AccountId::from(account.bytes))
    }

    /// Calls `ink_storage::collections::HashMap::insert` with the account as
    /// an `ink_env::AccountId`. Trusted: afterwards the entry for that account
    /// holds `amount` and every other entry is as it was; the value that the
    /// account had before is returned, if it had one; it does not panic. The
    /// map counts its keys in a `u32`, and a new key must leave that count in
    /// range.
    #[verifier::external_body]
    pub(crate) fn insert(&mut self, account: Account, amount: u128) -> (previous: Option<u128>)
        requires
            balance_entries(*old(self)).dom().finite(),
            has_room(balance_entries(*old(self)), account),
        ensures
            balance_entries(*final(self)) == balance_entries(*old(self)).insert(account, amount),
            previous == (if balance_entries(*old(self)).contains_key(account) {
                Some(balance_entries(*old(self))[account])
            } else {
                None
            }),
        no_unwind
    {
        self.map.insert(ink_env::AccountId::from(account.bytes), amount)
    }

    /// Calls `ink_storage::collections::HashMap::len`. Trusted: it returns the
    /// number of entries.
    #[verifier::external_body]
    pub(crate) fn len(&self) -> (count: u32)
        requires
            balance_entries(*self).dom().finite(),
        ensures
            count == balance_entries(*self).len(),
    {
        self.map.len()
    }
}

impl Allowances {
    /// Calls `ink_storage::collections::HashMap::new`. Trusted: the map it
    /// makes has no entry.
    #[verifier::external_body]
    pub(crate) fn new() -> (store: Allowances)
        ensures
            forall|pair: (Account, Account)| !allowance_entries(store).contains_key(pair),
    {
        Allowances { map: HashMap::new() }
    }

    /// Calls `ink_storage::collections::HashMap::get` with the pair as two
    /// `ink_env::AccountId`s. Trusted: it returns the value of the entry for
    /// that pair, and nothing where the map has no such entry; it does not
    /// panic.
    #[verifier::external_body]
    pub(crate) fn get(&self, owner: Account, spender: Account) -> (found: Option<&u128>)
        ensures
            found == (if allowance_entries(*self).contains_key((owner, spender)) {
                Some(&allowance_entries(*self)[(owner, spender)])
            } else {
                None
            }),
        no_unwind
    {
        self.map.get(&(ink_env::AccountId::from(owner.bytes), ink_env::AccountId::from(spender.bytes)))
    }

    /// Calls `ink_storage::collections::HashMap::insert` with the pair as two
    /// `ink_env::AccountId`s. Trusted: afterwards the entry for that pair
    /// holds `amount` and every other entry is as it was; the value that the
    /// pair had before is returned, if it had one; it does not panic. The map
    /// counts its keys in a `u32`, and a new key must leave that count in
    /// range.
    #[verifier::external_body]
    pub(crate) fn insert(&mut self, owner: Account, spender: Account, amount: u128) -> (previous: Option<u128>)
        requires
            allowance_entries(*old(self)).dom().finite(),
            has_room(allowance_entries(*old(self)), (owner, spender)),
        ensures
            allowance_entries(*final(self)) == allowance_entries(*old(self)).insert((owner, spender), amount),
            previous == (if allowance_entries(*old(self)).contains_key((owner, spender)) {
                Some(allowance_entries(*old(self))[(owner, spender)])
            } else {
                None
            }),
        no_unwind
    {
        self.map.insert((ink_env::AccountId::from(owner.bytes), ink_env::AccountId::from(spender.bytes)), amount)
    }

    /// Calls `ink_storage::collections::HashMap::len`. Trusted: it returns the
    /// number of entries.
    #[verifier::external_body]
    pub(crate) fn len(&self) -> (count: u32)
        requires
            allowance_entries(*self).dom().finite(),
        ensures
            count == allowance_entries(*self).len(),
    {
        self.map.len()
    }
}

} // verus!
