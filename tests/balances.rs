use ledger_runtime::balances::{ErrorKind, Pallet};

#[test]
fn init_balances() {
    let mut balances = Pallet::new();
    assert_eq!(balances.balance(&"Michel".to_string()), 0);

    balances.set_balance(&"Michel".to_string(), 10);

    assert_eq!(balances.balance(&"Michel".to_string()), 10);
    assert_eq!(balances.balance(&"Vini".to_string()), 0);
}

#[test]
fn transfer_balance() {
    let mut balances = Pallet::new();
    let caller = "alice".to_string();
    let to = "bob".to_string();

    assert_eq!(balances.balance(&caller), 0);
    assert_eq!(balances.balance(&to), 0);

    balances.set_balance(&caller, 30);
    balances.set_balance(&to, 10);

    let result = balances.transfer(&caller, &to, &40);
    assert_eq!(result.map_err(|e| e.message()), Err("Not enough funds."));

    let _ = balances.transfer(&caller, &to, &20);

    assert_eq!(balances.balance(&caller.to_string()), 10);
    assert_eq!(balances.balance(&to.to_string()), 30);
}

#[test]
fn set_balance_overwrites() {
    let mut balances = Pallet::new();
    let a = "carol".to_string();
    balances.set_balance(&a, 5);
    balances.set_balance(&a, 42);
    assert_eq!(balances.balance(&a), 42);
    balances.set_balance(&a, 0);
    assert_eq!(balances.balance(&a), 0);
}

#[test]
fn insufficient_funds_changes_nothing() {
    let mut balances = Pallet::new();
    let a = "alice".to_string();
    let b = "bob".to_string();
    balances.set_balance(&a, 7);
    balances.set_balance(&b, 3);
    assert_eq!(balances.transfer(&a, &b, &8), Err(ErrorKind::InsufficientFunds));
    assert_eq!(balances.balance(&a), 7);
    assert_eq!(balances.balance(&b), 3);
}

#[test]
fn insufficient_funds_from_unknown_account() {
    let mut balances = Pallet::new();
    let a = "nobody".to_string();
    let b = "bob".to_string();
    assert_eq!(balances.transfer(&a, &b, &1), Err(ErrorKind::InsufficientFunds));
    assert_eq!(balances.balance(&a), 0);
    assert_eq!(balances.balance(&b), 0);
}

#[test]
fn covered_transfer_moves_amount() {
    let mut balances = Pallet::new();
    let a = "alice".to_string();
    let b = "bob".to_string();
    balances.set_balance(&a, 100);
    balances.set_balance(&b, 5);
    assert_eq!(balances.transfer(&a, &b, &100), Ok(()));
    assert_eq!(balances.balance(&a), 0);
    assert_eq!(balances.balance(&b), 105);
}

#[test]
fn overflow_is_refused_and_changes_nothing() {
    let mut balances = Pallet::new();
    let a = "alice".to_string();
    let b = "bob".to_string();
    balances.set_balance(&a, 10);
    balances.set_balance(&b, u128::MAX - 5);
    assert_eq!(balances.transfer(&a, &b, &6), Err(ErrorKind::BalanceOverflow));
    assert_eq!(balances.balance(&a), 10);
    assert_eq!(balances.balance(&b), u128::MAX - 5);
    assert_eq!(balances.transfer(&a, &b, &5), Ok(()));
    assert_eq!(balances.balance(&a), 5);
    assert_eq!(balances.balance(&b), u128::MAX);
}

#[test]
fn self_transfer_leaves_balance() {
    let mut balances = Pallet::new();
    let a = "alice".to_string();
    balances.set_balance(&a, 50);
    assert_eq!(balances.transfer(&a, &a, &50), Ok(()));
    assert_eq!(balances.balance(&a), 50);
    assert_eq!(balances.transfer(&a, &a, &51), Err(ErrorKind::InsufficientFunds));
    assert_eq!(balances.balance(&a), 50);
}

#[test]
fn self_transfer_at_largest_balance() {
    let mut balances = Pallet::new();
    let a = "whale".to_string();
    balances.set_balance(&a, u128::MAX);
    assert_eq!(balances.transfer(&a, &a, &u128::MAX), Ok(()));
    assert_eq!(balances.balance(&a), u128::MAX);
}

#[test]
fn zero_transfer_between_unknown_accounts() {
    let mut balances = Pallet::new();
    let a = "x".to_string();
    let b = "y".to_string();
    assert_eq!(balances.transfer(&a, &b, &0), Ok(()));
    assert_eq!(balances.balance(&a), 0);
    assert_eq!(balances.balance(&b), 0);
}

#[test]
fn error_messages() {
    assert_eq!(ErrorKind::InsufficientFunds.message(), "Not enough funds.");
    assert_eq!(ErrorKind::BalanceOverflow.message(), "Funds not added.");
}
