use ror_autosplitter::sample::{Pair, Sample};

#[test]
fn repeated_value_is_unchanged() {
    let mut s: Sample<i32> = Sample::new();
    s.update(Some(3));
    s.update(Some(9));
    s.update(Some(9));
    assert!(!s.changed());
    assert!(!s.increased());
    assert!(!s.decreased());
}

#[test]
fn rise_is_increase() {
    let mut s: Sample<i32> = Sample::new();
    s.update(Some(5));
    s.update(Some(6));
    assert!(s.changed());
    assert!(s.increased());
    assert!(!s.decreased());
    assert!(s.changed_from(5));
    assert!(s.changed_to(6));
    assert!(s.changed_from_to(5, 6));
    assert!(!s.changed_from_to(6, 5));
}

#[test]
fn fall_is_decrease() {
    let mut s: Sample<i32> = Sample::new();
    s.update(Some(6));
    s.update(Some(5));
    assert!(s.changed());
    assert!(!s.increased());
    assert!(s.decreased());
}

#[test]
fn gap_suppresses_edge() {
    let mut s: Sample<i32> = Sample::new();
    s.update(Some(5));
    s.update(None);
    assert!(s.pair.is_none());
    assert!(!s.changed());
    s.update(Some(5));
    assert!(!s.changed());
    assert_eq!(s.pair, Some(Pair { previous: 5, latest: 5 }));
}

#[test]
fn gap_with_new_value_is_still_unchanged() {
    let mut s: Sample<i32> = Sample::new();
    s.update(Some(5));
    s.update(None);
    s.update(Some(7));
    assert!(!s.changed());
    assert!(!s.increased());
    s.update(Some(8));
    assert!(s.increased());
}

#[test]
fn first_update_is_unchanged() {
    let mut s: Sample<i32> = Sample::new();
    assert!(!s.changed());
    s.update(Some(1));
    assert!(!s.changed());
    assert_eq!(s.pair, Some(Pair { previous: 1, latest: 1 }));
}

#[test]
fn bool_sample_changed_to() {
    let mut s: Sample<bool> = Sample::new();
    s.update(Some(false));
    s.update(Some(true));
    assert!(s.changed());
    assert!(s.changed_to(true));
    assert!(!s.changed_to(false));
}
