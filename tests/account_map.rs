use ledger_runtime::account_map::AccountMap;

#[test]
fn account_map_insert_and_get() {
    let mut m: AccountMap<u32> = AccountMap::new();
    let a = "a".to_string();
    let b = "b".to_string();
    assert_eq!(m.get(&a), None);
    m.insert(&a, 1);
    m.insert(&b, 2);
    m.insert(&a, 3);
    assert_eq!(m.get(&a), Some(3));
    assert_eq!(m.get(&b), Some(2));
    assert_eq!(m.get(&"c".to_string()), None);
}
