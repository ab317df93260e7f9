use erc20::{Account, Approval, Erc20, Error, Transfer};

fn account(tag: u8) -> Account {
    Account::new([tag; 32])
}

fn sum_of_balances(ledger: &Erc20, accounts: &[Account]) -> u128 {
    accounts.iter().map(|a| ledger.balance_of(*a)).sum()
}

#[test]
fn default_works() {
    let owner = account(1);
    let ledger = Erc20::new(1000, owner);
    assert_eq!(ledger.total_supply(), 1000);
    assert_eq!(ledger.balance_of(owner), 1000);
    assert_eq!(ledger.balance_of(account(2)), 0);
    assert_eq!(ledger.allowance_of(owner, account(2)), 0);
}

#[test]
fn it_works() {
    let (alice, bob) = (account(1), account(2));
    let mut ledger = Erc20::new(100, alice);
    assert_eq!(
        ledger.transfer(alice, bob, 40),
        Ok(Transfer { from: alice, to: bob, amount: 40 })
    );
    assert_eq!(ledger.balance_of(alice), 60);
    assert_eq!(ledger.balance_of(bob), 40);
    assert_eq!(ledger.total_supply(), 100);
}

#[test]
fn new_with_zero_supply() {
    let owner = account(7);
    let mut ledger = Erc20::new(0, owner);
    assert_eq!(ledger.total_supply(), 0);
    assert_eq!(ledger.balance_of(owner), 0);
    assert_eq!(
        ledger.transfer(owner, account(8), 0),
        Ok(Transfer { from: owner, to: account(8), amount: 0 })
    );
    assert_eq!(ledger.transfer(owner, account(8), 1), Err(Error::InsufficientBalance));
}

#[test]
fn new_with_largest_supply() {
    let (alice, bob) = (account(1), account(2));
    let mut ledger = Erc20::new(u128::MAX, alice);
    assert_eq!(ledger.balance_of(alice), u128::MAX);
    assert!(ledger.transfer(alice, bob, u128::MAX).is_ok());
    assert_eq!(ledger.balance_of(alice), 0);
    assert_eq!(ledger.balance_of(bob), u128::MAX);
    assert!(ledger.transfer(bob, alice, 1).is_ok());
    assert_eq!(ledger.balance_of(alice), 1);
    assert_eq!(ledger.balance_of(bob), u128::MAX - 1);
    assert_eq!(ledger.total_supply(), u128::MAX);
}

#[test]
fn concrete_scenario() {
    let (a, b, c, d) = (account(1), account(2), account(3), account(4));
    let mut ledger = Erc20::new(1000, a);
    assert_eq!(ledger.balance_of(a), 1000);
    assert_eq!(ledger.balance_of(b), 0);

    assert_eq!(ledger.transfer(a, b, 300), Ok(Transfer { from: a, to: b, amount: 300 }));
    assert_eq!(ledger.balance_of(a), 700);
    assert_eq!(ledger.balance_of(b), 300);

    assert_eq!(
        ledger.approve(a, c, 100),
        Ok(Approval { owner: a, spender: c, amount: 100 })
    );
    assert_eq!(ledger.allowance_of(a, c), 100);

    assert_eq!(ledger.transfer_from(c, a, d, 150), Err(Error::ForbiddenTransfer));
    // The allowance is looked up by source and destination: `(a, d)` has
    // none, whoever calls.
    assert_eq!(ledger.allowance_of(a, d), 0);
    assert_eq!(ledger.transfer_from(c, a, d, 100), Err(Error::ForbiddenTransfer));
    assert_eq!(ledger.balance_of(a), 700);
    assert_eq!(ledger.balance_of(d), 0);

    // With the destination as the second key it goes through.
    assert_eq!(
        ledger.transfer_from(d, a, c, 100),
        Ok(Transfer { from: a, to: c, amount: 100 })
    );
    assert_eq!(ledger.balance_of(a), 600);
    assert_eq!(ledger.balance_of(c), 100);
    assert_eq!(ledger.total_supply(), 1000);
}

#[test]
fn balances_add_up_after_every_operation() {
    let everyone = [account(1), account(2), account(3), account(4)];
    let (a, b, c, d) = (everyone[0], everyone[1], everyone[2], everyone[3]);
    let mut ledger = Erc20::new(1_000_000, a);
    assert_eq!(sum_of_balances(&ledger, &everyone), 1_000_000);
    assert!(ledger.transfer(a, b, 250_000).is_ok());
    assert_eq!(sum_of_balances(&ledger, &everyone), 1_000_000);
    assert!(ledger.transfer(b, c, 1).is_ok());
    assert_eq!(sum_of_balances(&ledger, &everyone), 1_000_000);
    assert!(ledger.approve(a, d, 500).is_ok());
    assert_eq!(sum_of_balances(&ledger, &everyone), 1_000_000);
    assert!(ledger.transfer_from(b, a, d, 500).is_ok());
    assert_eq!(sum_of_balances(&ledger, &everyone), 1_000_000);
    assert!(ledger.transfer(c, c, 1).is_ok());
    assert_eq!(sum_of_balances(&ledger, &everyone), 1_000_000);
    assert!(ledger.transfer(d, a, 501).is_err());
    assert_eq!(sum_of_balances(&ledger, &everyone), 1_000_000);
    assert_eq!(ledger.balance_of(a), 749_500);
    assert_eq!(ledger.balance_of(b), 249_999);
    assert_eq!(ledger.balance_of(c), 1);
    assert_eq!(ledger.balance_of(d), 500);
    assert_eq!(ledger.total_supply(), 1_000_000);
}

#[test]
fn transfer_of_the_whole_balance() {
    let (a, b) = (account(1), account(2));
    let mut ledger = Erc20::new(10, a);
    assert_eq!(ledger.transfer(a, b, 10), Ok(Transfer { from: a, to: b, amount: 10 }));
    assert_eq!(ledger.balance_of(a), 0);
    assert_eq!(ledger.balance_of(b), 10);
    assert_eq!(ledger.transfer(a, b, 1), Err(Error::InsufficientBalance));
}

#[test]
fn transfer_of_one_more_than_the_balance_fails() {
    let (a, b) = (account(1), account(2));
    let mut ledger = Erc20::new(10, a);
    assert_eq!(ledger.transfer(a, b, 11), Err(Error::InsufficientBalance));
    assert_eq!(ledger.balance_of(a), 10);
    assert_eq!(ledger.balance_of(b), 0);
}

#[test]
fn transfer_from_of_the_whole_allowance() {
    let (a, b, c) = (account(1), account(2), account(3));
    let mut ledger = Erc20::new(10, a);
    assert!(ledger.approve(a, b, 4).is_ok());
    assert_eq!(ledger.transfer_from(c, a, b, 5), Err(Error::ForbiddenTransfer));
    assert_eq!(ledger.transfer_from(c, a, b, 4), Ok(Transfer { from: a, to: b, amount: 4 }));
    assert_eq!(ledger.balance_of(a), 6);
    assert_eq!(ledger.balance_of(b), 4);
}

#[test]
fn transfer_of_nothing_succeeds() {
    let (a, b) = (account(1), account(2));
    let mut ledger = Erc20::new(10, a);
    assert_eq!(ledger.transfer(b, a, 0), Ok(Transfer { from: b, to: a, amount: 0 }));
    assert_eq!(ledger.transfer_from(a, b, a, 0), Ok(Transfer { from: b, to: a, amount: 0 }));
    assert_eq!(ledger.balance_of(a), 10);
    assert_eq!(ledger.balance_of(b), 0);
}

#[test]
fn failed_transfer_changes_nothing() {
    let (a, b) = (account(1), account(2));
    let mut ledger = Erc20::new(50, a);
    assert!(ledger.transfer(a, b, 20).is_ok());
    assert!(ledger.approve(a, b, 5).is_ok());
    assert_eq!(ledger.transfer(b, a, 21), Err(Error::InsufficientBalance));
    assert_eq!(ledger.transfer_from(b, a, b, 6), Err(Error::ForbiddenTransfer));
    assert_eq!(ledger.balance_of(a), 30);
    assert_eq!(ledger.balance_of(b), 20);
    assert_eq!(ledger.allowance_of(a, b), 5);
    assert_eq!(ledger.total_supply(), 50);
}

#[test]
fn transfer_from_beyond_the_balance_fails() {
    let (a, b, c) = (account(1), account(2), account(3));
    let mut ledger = Erc20::new(50, a);
    assert!(ledger.approve(a, b, 50).is_ok());
    assert!(ledger.transfer(a, c, 30).is_ok());
    // The allowance was granted against the balance of that moment and stays.
    assert_eq!(ledger.allowance_of(a, b), 50);
    assert_eq!(ledger.transfer_from(c, a, b, 21), Err(Error::InsufficientBalance));
    assert_eq!(ledger.balance_of(a), 20);
    assert_eq!(ledger.balance_of(b), 0);
    assert_eq!(ledger.transfer_from(c, a, b, 20), Ok(Transfer { from: a, to: b, amount: 20 }));
    assert_eq!(ledger.balance_of(a), 0);
    assert_eq!(ledger.balance_of(b), 20);
}

#[test]
fn transfer_from_leaves_the_allowance() {
    let (a, b) = (account(1), account(2));
    let mut ledger = Erc20::new(100, a);
    assert!(ledger.approve(a, b, 30).is_ok());
    assert!(ledger.transfer_from(b, a, b, 30).is_ok());
    assert_eq!(ledger.allowance_of(a, b), 30);
    assert!(ledger.transfer_from(b, a, b, 30).is_ok());
    assert_eq!(ledger.allowance_of(a, b), 30);
    assert_eq!(ledger.balance_of(a), 40);
    assert_eq!(ledger.balance_of(b), 60);
}

#[test]
fn self_transfer_is_no_op() {
    let (a, b) = (account(1), account(2));
    let mut ledger = Erc20::new(100, a);
    assert_eq!(ledger.transfer(a, a, 60), Ok(Transfer { from: a, to: a, amount: 60 }));
    assert_eq!(ledger.balance_of(a), 100);
    assert_eq!(ledger.transfer(a, a, 100), Ok(Transfer { from: a, to: a, amount: 100 }));
    assert_eq!(ledger.balance_of(a), 100);
    assert_eq!(ledger.transfer(a, a, 101), Err(Error::InsufficientBalance));
    assert_eq!(ledger.transfer(b, b, 0), Ok(Transfer { from: b, to: b, amount: 0 }));
    assert_eq!(ledger.balance_of(b), 0);
    assert_eq!(ledger.total_supply(), 100);
}

#[test]
fn approve_is_absolute() {
    let (a, b) = (account(1), account(2));
    let mut ledger = Erc20::new(1000, a);
    assert_eq!(ledger.approve(a, b, 50), Ok(Approval { owner: a, spender: b, amount: 50 }));
    assert_eq!(ledger.allowance_of(a, b), 50);
    assert_eq!(ledger.approve(a, b, 10), Ok(Approval { owner: a, spender: b, amount: 10 }));
    assert_eq!(ledger.allowance_of(a, b), 10);
    assert_eq!(ledger.approve(a, b, 0), Ok(Approval { owner: a, spender: b, amount: 0 }));
    assert_eq!(ledger.allowance_of(a, b), 0);
}

#[test]
fn approve_beyond_the_balance_fails() {
    let (a, b) = (account(1), account(2));
    let mut ledger = Erc20::new(1000, a);
    assert!(ledger.approve(a, b, 1000).is_ok());
    assert_eq!(ledger.approve(a, b, 1001), Err(Error::InsufficientBalance));
    assert_eq!(ledger.allowance_of(a, b), 1000);
    assert_eq!(ledger.approve(b, a, 1), Err(Error::InsufficientBalance));
    assert_eq!(ledger.allowance_of(b, a), 0);
    assert_eq!(ledger.balance_of(a), 1000);
}

#[test]
fn allowances_are_kept_by_pair_and_direction() {
    let (a, b, c) = (account(1), account(2), account(3));
    let mut ledger = Erc20::new(100, a);
    assert!(ledger.transfer(a, b, 50).is_ok());
    assert!(ledger.approve(a, b, 7).is_ok());
    assert!(ledger.approve(b, a, 9).is_ok());
    assert!(ledger.approve(a, c, 11).is_ok());
    assert_eq!(ledger.allowance_of(a, b), 7);
    assert_eq!(ledger.allowance_of(b, a), 9);
    assert_eq!(ledger.allowance_of(a, c), 11);
    assert_eq!(ledger.allowance_of(c, a), 0);
    assert_eq!(ledger.allowance_of(b, c), 0);
}

#[test]
fn balances_are_kept_by_account() {
    let mut ledger = Erc20::new(1000, account(0));
    for tag in 1..=20u8 {
        assert!(ledger.transfer(account(0), account(tag), tag as u128).is_ok());
    }
    for tag in 1..=20u8 {
        assert_eq!(ledger.balance_of(account(tag)), tag as u128);
    }
    assert_eq!(ledger.balance_of(account(0)), 1000 - 210);
    assert_eq!(ledger.balance_of(account(21)), 0);
}

#[test]
fn accounts_that_differ_in_one_byte_are_distinct() {
    let mut bytes = [0u8; 32];
    let first = Account::new(bytes);
    bytes[31] = 1;
    let second = Account::new(bytes);
    assert!(first != second);
    assert!(first == Account::new([0u8; 32]));
    assert_eq!(second.to_bytes()[31], 1);
    let mut ledger = Erc20::new(5, first);
    assert_eq!(ledger.balance_of(second), 0);
    assert!(ledger.transfer(first, second, 2).is_ok());
    assert_eq!(ledger.balance_of(first), 3);
    assert_eq!(ledger.balance_of(second), 2);
}

#[test]
fn a_small_ledger_has_room() {
    let (a, b, c) = (account(1), account(2), account(3));
    let mut ledger = Erc20::new(100, a);
    assert!(ledger.transfer_fits(a, b));
    assert!(ledger.transfer_fits(b, c));
    assert!(ledger.transfer_fits(c, c));
    assert!(ledger.approval_fits(a, b));
    assert!(ledger.approve(a, b, 1).is_ok());
    assert!(ledger.approval_fits(a, b));
    assert!(ledger.approval_fits(b, a));
}
