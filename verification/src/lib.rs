//! A fungible-token ledger with a fixed supply, balances per account and
//! allowances per pair of accounts, kept in `ink_storage` hash maps.

pub mod account;
pub mod error;
pub mod events;
pub mod laws;
pub mod ledger;
pub mod state;
pub mod store;

pub use account::Account;
pub use error::Error;
pub use ledger::Erc20;
pub use state::{LedgerState, Operation};
pub use events::{Approval, Transfer};
