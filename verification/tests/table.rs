use key_value::table::Table;

#[test]
fn new_table_is_empty() {
    let table: Table<&str> = Table::new();
    assert!(table.get(0).is_none());
    assert!(table.get(42).is_none());
    assert!(table.get(u32::MAX).is_none());
}

#[test]
fn push_counts_up_from_zero() {
    let mut table = Table::new();
    assert_eq!(table.push("a"), Ok(0));
    assert_eq!(table.push("b"), Ok(1));
    assert_eq!(table.push("c"), Ok(2));
    assert_eq!(table.get(0), Some(&"a"));
    assert_eq!(table.get(1), Some(&"b"));
    assert_eq!(table.get(2), Some(&"c"));
    assert_eq!(table.get(3), None);
}

#[test]
fn remove_returns_the_value_once() {
    let mut table = Table::new();
    let key = table.push(String::from("value")).unwrap();
    assert_eq!(table.remove(key), Some(String::from("value")));
    assert_eq!(table.get(key), None);
    assert_eq!(table.remove(key), None);
}

#[test]
fn remove_of_absent_key_changes_nothing() {
    let mut table = Table::new();
    let key = table.push(7u8).unwrap();
    assert_eq!(table.remove(key + 1), None);
    assert_eq!(table.get(key), Some(&7u8));
}

#[test]
fn freed_handle_is_not_handed_out_before_the_counter_wraps() {
    let mut table = Table::new();
    assert_eq!(table.push('a'), Ok(0));
    assert_eq!(table.push('b'), Ok(1));
    assert_eq!(table.remove(0), Some('a'));
    assert_eq!(table.push('c'), Ok(2));
    assert_eq!(table.get(0), None);
    assert_eq!(table.get(1), Some(&'b'));
    assert_eq!(table.get(2), Some(&'c'));
}

#[test]
fn push_never_returns_a_live_handle() {
    let mut table = Table::new();
    let mut live: Vec<u32> = Vec::new();
    for round in 0..200u32 {
        let key = table.push(round).unwrap();
        assert!(!live.contains(&key));
        live.push(key);
        if round % 3 == 0 {
            let freed = live.remove(0);
            assert_eq!(table.remove(freed).is_some(), true);
        }
    }
    for key in live.iter() {
        assert!(table.get(*key).is_some());
    }
}

#[test]
fn pushed_value_is_owned_by_its_handle() {
    let mut table = Table::new();
    let first = table.push(vec![1u8, 2, 3]).unwrap();
    let second = table.push(vec![]).unwrap();
    assert_ne!(first, second);
    assert_eq!(table.get(first), Some(&vec![1u8, 2, 3]));
    assert_eq!(table.get(second), Some(&vec![]));
}
