use garble_service::bits::Bits;

#[test]
fn bits_from_bools_keep_order() {
    let b = Bits::from_bools(&[true, false, false, true]);
    assert_eq!(b.len(), 4);
    assert!(b.get(0));
    assert!(!b.get(1));
    assert!(!b.get(2));
    assert!(b.get(3));
}

#[test]
fn bits_push_appends() {
    let mut b = Bits::new();
    assert_eq!(b.len(), 0);
    b.push(true);
    b.push(false);
    assert_eq!(b.len(), 2);
    assert!(b.get(0));
    assert!(!b.get(1));
}
