use barter_python::account::{ensure_all_match, unique_in_order, IndexMismatch};

#[test]
fn orders_of_the_snapshot_instrument_are_accepted() {
    assert_eq!(ensure_all_match(3, &vec![3, 3, 3]), Ok(()));
    assert_eq!(ensure_all_match(3, &vec![]), Ok(()));
}

#[test]
fn first_foreign_order_is_reported() {
    assert_eq!(
        ensure_all_match(1, &vec![1, 4, 7]),
        Err(IndexMismatch { found: 4, expected: 1 })
    );
    assert_eq!(
        ensure_all_match(0, &vec![2]),
        Err(IndexMismatch { found: 2, expected: 0 })
    );
}

#[test]
fn assets_are_listed_once_in_first_seen_order() {
    assert_eq!(unique_in_order(&vec![2, 0, 2, 1, 0, 5]), vec![2, 0, 1, 5]);
    assert_eq!(unique_in_order(&vec![]), Vec::<usize>::new());
    assert_eq!(unique_in_order(&vec![7, 7, 7]), vec![7]);
}
