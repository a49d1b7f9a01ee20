use erc20::{AccountId, Approval, Erc20, Error, Event, Transfer};

fn acct(n: u8) -> AccountId {
    AccountId::from_bytes([n; 32])
}

fn sum_of(l: &Erc20, accounts: &[AccountId]) -> u128 {
    accounts.iter().map(|a| l.balance_of(*a)).sum()
}

#[test]
fn construction_gives_creator_whole_supply() {
    let l = Erc20::new(acct(1), 1000);
    assert_eq!(l.balance_of(acct(1)), 1000);
    assert_eq!(l.total_supply(), 1000);
    assert_eq!(l.balance_of(acct(2)), 0);
    assert_eq!(l.allowance(acct(1), acct(2)), 0);
    assert!(l.events().is_empty());
}

#[test]
fn construction_with_largest_supply() {
    let l = Erc20::new(acct(1), u128::MAX);
    assert_eq!(l.balance_of(acct(1)), u128::MAX);
    assert_eq!(l.total_supply(), u128::MAX);
}

#[test]
fn transfer_moves_units() {
    let (a, b) = (acct(1), acct(2));
    let mut l = Erc20::new(a, 100);
    assert_eq!(l.transfer(a, b, 40), Ok(()));
    assert_eq!(l.balance_of(a), 60);
    assert_eq!(l.balance_of(b), 40);
    assert_eq!(l.events(), &vec![Event::Transfer(Transfer { from: a, to: b, value: 40 })]);
}

#[test]
fn transfer_beyond_balance_fails() {
    let (a, b) = (acct(1), acct(2));
    let mut l = Erc20::new(a, 10);
    assert_eq!(l.transfer(a, b, 11), Err(Error::BalanceTooLow));
    assert_eq!(l.balance_of(a), 10);
    assert_eq!(l.balance_of(b), 0);
    assert!(l.events().is_empty());
}

#[test]
fn transfer_of_whole_balance_at_largest_supply() {
    let (a, b) = (acct(1), acct(2));
    let mut l = Erc20::new(a, u128::MAX);
    assert_eq!(l.transfer(a, b, u128::MAX - 1), Ok(()));
    assert_eq!(l.transfer(a, b, 1), Ok(()));
    assert_eq!(l.balance_of(a), 0);
    assert_eq!(l.balance_of(b), u128::MAX);
}

#[test]
fn self_transfer_keeps_balance() {
    let a = acct(1);
    let mut l = Erc20::new(a, 100);
    assert_eq!(l.transfer(a, a, 100), Ok(()));
    assert_eq!(l.balance_of(a), 100);
    assert_eq!(l.transfer(a, a, 37), Ok(()));
    assert_eq!(l.balance_of(a), 100);
    assert_eq!(l.transfer(a, a, 101), Err(Error::BalanceTooLow));
    assert_eq!(l.events().len(), 2);
}

#[test]
fn approve_overwrites() {
    let (a, b) = (acct(1), acct(2));
    let mut l = Erc20::new(a, 100);
    assert_eq!(l.approve(a, b, 50), Ok(()));
    assert_eq!(l.approve(a, b, 20), Ok(()));
    assert_eq!(l.allowance(a, b), 20);
    assert_eq!(l.allowance(b, a), 0);
    assert_eq!(
        l.events(),
        &vec![
            Event::Approval(Approval { from: a, to: b, value: 50 }),
            Event::Approval(Approval { from: a, to: b, value: 20 }),
        ]
    );
}

#[test]
fn transfer_from_moves_and_spends_allowance() {
    let (a, s, c) = (acct(1), acct(2), acct(3));
    let mut l = Erc20::new(a, 100);
    assert_eq!(l.approve(a, s, 30), Ok(()));
    assert_eq!(l.transfer_from(s, a, c, 30), Ok(()));
    assert_eq!(l.allowance(a, s), 0);
    assert_eq!(l.balance_of(a), 70);
    assert_eq!(l.balance_of(c), 30);
    assert_eq!(l.balance_of(s), 0);
    assert_eq!(
        l.events(),
        &vec![
            Event::Approval(Approval { from: a, to: s, value: 30 }),
            Event::Transfer(Transfer { from: a, to: c, value: 30 }),
        ]
    );
}

#[test]
fn transfer_from_over_allowance_fails() {
    let (a, s, c) = (acct(1), acct(2), acct(3));
    let mut l = Erc20::new(a, 100);
    assert_eq!(l.approve(a, s, 5), Ok(()));
    assert_eq!(l.transfer_from(s, a, c, 6), Err(Error::AllowanceTooLow));
    assert_eq!(l.allowance(a, s), 5);
    assert_eq!(l.balance_of(a), 100);
    assert_eq!(l.balance_of(c), 0);
    assert_eq!(l.events().len(), 1);
}

#[test]
fn transfer_from_without_approval_fails() {
    let (a, s, c) = (acct(1), acct(2), acct(3));
    let mut l = Erc20::new(a, 100);
    assert_eq!(l.transfer_from(s, a, c, 1), Err(Error::AllowanceTooLow));
    assert_eq!(l.balance_of(a), 100);
}

#[test]
fn transfer_from_over_balance_keeps_allowance() {
    let (a, s, c) = (acct(1), acct(2), acct(3));
    let mut l = Erc20::new(a, 10);
    assert_eq!(l.approve(a, s, 50), Ok(()));
    assert_eq!(l.transfer_from(s, a, c, 11), Err(Error::BalanceTooLow));
    assert_eq!(l.allowance(a, s), 50);
    assert_eq!(l.balance_of(a), 10);
    assert_eq!(l.balance_of(c), 0);
}

#[test]
fn zero_amount_operations_emit() {
    let (a, b) = (acct(1), acct(2));
    let mut l = Erc20::new(a, 100);
    assert_eq!(l.transfer(b, a, 0), Ok(()));
    assert_eq!(l.approve(a, b, 0), Ok(()));
    assert_eq!(l.transfer_from(b, a, b, 0), Ok(()));
    assert_eq!(l.balance_of(a), 100);
    assert_eq!(l.balance_of(b), 0);
    assert_eq!(l.allowance(a, b), 0);
    assert_eq!(
        l.events(),
        &vec![
            Event::Transfer(Transfer { from: b, to: a, value: 0 }),
            Event::Approval(Approval { from: a, to: b, value: 0 }),
            Event::Transfer(Transfer { from: a, to: b, value: 0 }),
        ]
    );
}

#[test]
fn conservation_over_operations() {
    let accounts = [acct(1), acct(2), acct(3), acct(4)];
    let [a, b, c, d] = accounts;
    let mut l = Erc20::new(a, 1000);
    assert_eq!(sum_of(&l, &accounts), 1000);
    assert_eq!(l.transfer(a, b, 300), Ok(()));
    assert_eq!(sum_of(&l, &accounts), 1000);
    assert_eq!(l.transfer(b, c, 301), Err(Error::BalanceTooLow));
    assert_eq!(sum_of(&l, &accounts), 1000);
    assert_eq!(l.approve(b, d, 200), Ok(()));
    assert_eq!(l.transfer_from(d, b, c, 150), Ok(()));
    assert_eq!(sum_of(&l, &accounts), 1000);
    assert_eq!(l.transfer(c, a, 150), Ok(()));
    assert_eq!(sum_of(&l, &accounts), 1000);
    assert_eq!(l.balance_of(a), 850);
    assert_eq!(l.balance_of(b), 150);
    assert_eq!(l.balance_of(c), 0);
    assert_eq!(l.balance_of(d), 0);
    assert_eq!(l.allowance(b, d), 50);
    assert_eq!(l.total_supply(), 1000);
}

#[test]
fn take_events_hands_over_and_clears() {
    let (a, b) = (acct(1), acct(2));
    let mut l = Erc20::new(a, 100);
    assert_eq!(l.transfer(a, b, 1), Ok(()));
    assert_eq!(l.approve(b, a, 2), Ok(()));
    let taken = l.take_events();
    assert_eq!(
        taken,
        vec![
            Event::Transfer(Transfer { from: a, to: b, value: 1 }),
            Event::Approval(Approval { from: b, to: a, value: 2 }),
        ]
    );
    assert!(l.events().is_empty());
    assert_eq!(l.balance_of(b), 1);
    assert_eq!(l.allowance(b, a), 2);
}

#[test]
fn accounts_compare_by_every_byte() {
    let mut bytes = [7u8; 32];
    assert_eq!(acct(7), AccountId::from_bytes(bytes));
    bytes[31] = 8;
    assert_ne!(acct(7), AccountId::from_bytes(bytes));
    assert_eq!(AccountId::from_bytes(bytes).to_bytes(), bytes);
}
