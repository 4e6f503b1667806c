use ledger_runtime::balances::ErrorKind;
use ledger_runtime::Runtime;

#[test]
fn fresh_runtime_is_empty() {
    let runtime = Runtime::new();
    assert_eq!(runtime.balances.balance(&"anyone".to_string()), 0);
    assert_eq!(runtime.system.nonce(&"anyone".to_string()), 0);
    assert_eq!(runtime.system.block_number(), 0);
}

#[test]
fn alice_pays_bob() {
    let mut runtime = Runtime::new();
    let alice = "alice".to_string();
    let bob = "bob".to_string();
    runtime.balances.set_balance(&alice, 100);

    runtime.system.inc_block_number();
    assert_eq!(runtime.system.block_number(), 1);

    runtime.system.inc_nonce(&alice);
    assert_eq!(runtime.system.nonce(&alice), 1);

    assert_eq!(runtime.balances.transfer(&alice, &bob, &30), Ok(()));
    assert_eq!(runtime.balances.balance(&alice), 70);
    assert_eq!(runtime.balances.balance(&bob), 30);

    assert_eq!(
        runtime.balances.transfer(&alice, &bob, &9999),
        Err(ErrorKind::InsufficientFunds)
    );
    assert_eq!(runtime.balances.balance(&alice), 70);
    assert_eq!(runtime.balances.balance(&bob), 30);
}
