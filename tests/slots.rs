use js_native::slots::SlotTable;

#[test]
fn check_out_and_in() {
    let mut t: SlotTable<String> = SlotTable::new();
    let h = t.insert("a".to_string());
    assert_eq!(h, 0);
    assert!(t.contains(h));
    let v = t.check_out(h).unwrap();
    assert!(!t.contains(h));
    assert!(t.check_out(h).is_none());
    assert!(t.release(h).is_none());
    assert_eq!(t.check_in(h, v), Ok(()));
    assert_eq!(t.get(h).map(|s| s.as_str()), Some("a"));
}

#[test]
fn check_in_needs_a_lent_slot() {
    let mut t: SlotTable<u8> = SlotTable::new();
    let h = t.insert(1);
    assert_eq!(t.check_in(h, 2), Err(2));
    assert_eq!(t.check_in(9, 3), Err(3));
    assert_eq!(t.get(h), Some(&1));
}

#[test]
fn release_once() {
    let mut t: SlotTable<u8> = SlotTable::new();
    let a = t.insert(1);
    let b = t.insert(2);
    assert_eq!(t.release(a), Some(1));
    assert_eq!(t.release(a), None);
    assert!(t.is_released(a));
    assert_eq!(t.get(b), Some(&2));
    assert_eq!(t.len(), 2);
    let c = t.insert(3);
    assert_eq!(c, 2);
    assert_eq!(t.release(c), Some(3));
}
