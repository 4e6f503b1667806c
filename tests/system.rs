use ledger_runtime::system::Pallet;

#[test]
fn init_system() {
    let mut system = Pallet::new();

    assert_eq!(system.block_number(), 0);
    assert_eq!(system.nonce(&"daniel".to_string()), 0);

    system.inc_block_number();

    assert_eq!(system.block_number(), 1);

    system.inc_nonce(&"daniel".to_string());
    assert_eq!(system.nonce(&"daniel".to_string()), 1);
}

#[test]
fn blocks_counted_from_zero() {
    let mut system = Pallet::new();
    for _ in 0..250 {
        system.inc_block_number();
    }
    assert_eq!(system.block_number(), 250);
}

#[test]
fn nonces_counted_per_account() {
    let mut system = Pallet::new();
    let a = "alice".to_string();
    for _ in 0..7 {
        system.inc_nonce(&a);
    }
    assert_eq!(system.nonce(&a), 7);
    assert_eq!(system.nonce(&"bob".to_string()), 0);
    system.inc_nonce(&"bob".to_string());
    assert_eq!(system.nonce(&"bob".to_string()), 1);
    assert_eq!(system.nonce(&a), 7);
}
