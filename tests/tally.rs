use multi_node::tally::RoundTally;

#[test]
fn tally_resets_only_when_complete() {
    let mut t = RoundTally::new(3);
    assert_eq!(t.get_count(), 0);
    assert_eq!(t.get_size(), 3);
    assert!(!t.try_reset_if_complete());
    assert!(t.increment());
    assert!(t.increment());
    assert!(!t.try_reset_if_complete());
    assert_eq!(t.get_count(), 2);
    assert!(t.increment());
    assert!(t.try_reset_if_complete());
    assert_eq!(t.get_count(), 0);
}

#[test]
fn tally_does_not_exceed_size() {
    let mut t = RoundTally::new(1);
    assert!(t.increment());
    assert!(!t.increment());
    assert_eq!(t.get_count(), 1);
}
