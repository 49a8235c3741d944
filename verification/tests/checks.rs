//! The pure checks on sequences of validators.

use validator_set::checks::{is_duplicate, is_unique, retain_absent, would_violate_min};

#[test]
fn membership() {
    assert!(is_duplicate(&vec![1, 2, 3], 1));
    assert!(is_duplicate(&vec![1, 2, 3], 3));
    assert!(!is_duplicate(&vec![1, 2, 3], 4));
    assert!(!is_duplicate(&vec![], 0));
}

#[test]
fn uniqueness() {
    assert!(is_unique(&vec![]));
    assert!(is_unique(&vec![5]));
    assert!(is_unique(&vec![3, 1, 2]));
    assert!(!is_unique(&vec![3, 1, 3]));
    assert!(!is_unique(&vec![1, 2, 3, 4, 4]));
    assert!(!is_unique(&vec![7, 7]));
}

#[test]
fn survivors_keep_their_order() {
    assert_eq!(retain_absent(&vec![4, 1, 3, 2], &vec![3, 9, 4, 3]), vec![1, 2]);
    assert_eq!(retain_absent(&vec![4, 1, 3, 2], &vec![]), vec![4, 1, 3, 2]);
    assert_eq!(retain_absent(&vec![4, 1, 3, 2], &vec![9]), vec![4, 1, 3, 2]);
    assert_eq!(retain_absent(&vec![1, 2], &vec![2, 1]), Vec::<u64>::new());
    assert_eq!(retain_absent(&vec![], &vec![2, 1]), Vec::<u64>::new());
}

#[test]
fn minimum_counts_what_is_shared() {
    // four validators, two of them to be removed: two are left
    assert!(!would_violate_min(&vec![1, 2, 3, 4], &vec![2, 2, 9, 4], true, 2));
    assert!(would_violate_min(&vec![1, 2, 3, 4], &vec![2, 2, 9, 4], true, 3));
    // strangers take nothing from the count
    assert!(!would_violate_min(&vec![1, 2], &vec![7, 8, 9], true, 2));
    // an empty removal list is refused only where the set is already too small
    assert!(!would_violate_min(&vec![1, 2], &vec![], true, 2));
    assert!(would_violate_min(&vec![1], &vec![], true, 2));
    // a minimum of zero refuses nothing
    assert!(!would_violate_min(&vec![1], &vec![1], true, 0));
    assert!(would_violate_min(&vec![1], &vec![1], true, 1));
}

#[test]
fn disabled_check_never_refuses() {
    assert!(!would_violate_min(&vec![1, 2, 3, 4], &vec![1, 2, 3, 4], false, 2));
    assert!(!would_violate_min(&vec![], &vec![], false, u32::MAX));
    assert!(would_violate_min(&vec![], &vec![], true, u32::MAX));
}
