use webview_editor::guard::SendCell;

#[test]
fn guard_allows_owner() {
    let cell = SendCell::new(41u32, 7);
    assert!(cell.check(7));
    assert_eq!(*cell.access(7), 41);
}

#[test]
fn guard_blocks_other_thread_token() {
    let cell = SendCell::new("panel".to_string(), 7);
    assert!(!cell.check(8));
    assert!(!cell.check(0));
}

#[test]
fn guard_mutation() {
    let mut cell = SendCell::new(1u32, 3);
    *cell.access_mut(3) = 99;
    assert_eq!(*cell.access(3), 99);
    assert!(cell.check(3));
}

#[test]
fn guard_into_inner() {
    let cell = SendCell::new(vec![1u8, 2, 3], 5);
    assert_eq!(cell.into_inner(5), vec![1u8, 2, 3]);
}
