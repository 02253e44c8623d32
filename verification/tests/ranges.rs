//! Key ranges, and ranged reads over the store.

use indexed_db::{key_in_range, make_key_range, Error, KeyBound, KeyRange, Store};

#[test]
fn doubly_unbounded_range_is_refused() {
    assert_eq!(
        make_key_range(KeyBound::Unbounded, KeyBound::Unbounded),
        Err(Error::InvalidRange)
    );
}

#[test]
fn misordered_bounds_are_refused_as_invalid_keys() {
    assert_eq!(
        make_key_range(KeyBound::Included(5), KeyBound::Included(3)),
        Err(Error::InvalidKey)
    );
    assert_eq!(
        make_key_range(KeyBound::Included(5), KeyBound::Excluded(5)),
        Err(Error::InvalidKey)
    );
    assert_eq!(
        make_key_range(KeyBound::Excluded(5), KeyBound::Included(5)),
        Err(Error::InvalidKey)
    );
    assert_eq!(
        make_key_range(KeyBound::Excluded(5), KeyBound::Excluded(5)),
        Err(Error::InvalidKey)
    );
    assert_eq!(
        make_key_range(KeyBound::Excluded(6), KeyBound::Excluded(5)),
        Err(Error::InvalidKey)
    );
}

#[test]
fn accepted_ranges_keep_their_bounds() {
    let r = make_key_range(KeyBound::Included(2), KeyBound::Excluded(8)).unwrap();
    assert_eq!(
        r,
        KeyRange { lower: KeyBound::Included(2), upper: KeyBound::Excluded(8) }
    );
    let half = make_key_range(KeyBound::Unbounded, KeyBound::Included(4)).unwrap();
    assert_eq!(half.lower, KeyBound::Unbounded);
}

#[test]
fn membership_follows_the_bounds() {
    let r = make_key_range(KeyBound::Included(2), KeyBound::Excluded(8)).unwrap();
    assert!(!key_in_range(&r, 1));
    assert!(key_in_range(&r, 2));
    assert!(key_in_range(&r, 7));
    assert!(!key_in_range(&r, 8));
    let lower_open = make_key_range(KeyBound::Excluded(2), KeyBound::Unbounded).unwrap();
    assert!(!key_in_range(&lower_open, 2));
    assert!(key_in_range(&lower_open, 3));
    assert!(key_in_range(&lower_open, u64::MAX));
}

#[test]
fn ranged_delete_removes_exactly_the_range() {
    let mut s: Store<&'static str> = Store::empty();
    s.put(1, "a");
    s.put(4, "b");
    s.put(6, "c");
    s.put(9, "d");
    let r = make_key_range(KeyBound::Included(4), KeyBound::Excluded(9)).unwrap();
    s.delete_range(&r);
    assert_eq!(s.count(), 2);
    assert_eq!(s.get(1), Some("a"));
    assert_eq!(s.get(4), None);
    assert_eq!(s.get(6), None);
    assert_eq!(s.get(9), Some("d"));
}

#[test]
fn ranged_reads_over_the_store() {
    let mut s: Store<&'static str> = Store::empty();
    s.put(1, "a");
    s.put(4, "b");
    s.put(6, "c");
    s.put(9, "d");
    let r = make_key_range(KeyBound::Included(4), KeyBound::Included(8)).unwrap();
    assert_eq!(s.count_in(&r), 2);
    assert_eq!(s.get_first_in(&r), Some((4, "b")));
    let below = make_key_range(KeyBound::Unbounded, KeyBound::Excluded(1)).unwrap();
    assert_eq!(s.count_in(&below), 0);
    assert_eq!(s.get_first_in(&below), None);
    let above = make_key_range(KeyBound::Excluded(6), KeyBound::Unbounded).unwrap();
    assert_eq!(s.count_in(&above), 1);
    assert_eq!(s.get_first_in(&above), Some((9, "d")));
}
