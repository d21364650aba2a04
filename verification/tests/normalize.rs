use hypermon::domain_state::State;

#[test]
fn known_codes_map_to_canonical_states() {
    assert_eq!(State::new(0), State::NoState);
    assert_eq!(State::new(1), State::Running);
    assert_eq!(State::new(2), State::Blocked);
    assert_eq!(State::new(3), State::Paused);
    assert_eq!(State::new(4), State::Shutdown);
    assert_eq!(State::new(5), State::Shutoff);
    assert_eq!(State::new(6), State::Crashed);
    assert_eq!(State::new(7), State::PmSuspended);
}

#[test]
fn out_of_range_codes_map_to_unknown() {
    assert_eq!(State::new(8), State::Unknown);
    assert_eq!(State::new(9), State::Unknown);
    assert_eq!(State::new(100), State::Unknown);
    assert_eq!(State::new(u32::MAX), State::Unknown);
    // A wrapped-around negative-equivalent value is just a large code.
    assert_eq!(State::new((-1i32) as u32), State::Unknown);
}

#[test]
fn labels_are_lowercase_words() {
    assert_eq!(State::new(0).label(), "none");
    assert_eq!(State::new(1).label(), "running");
    assert_eq!(State::new(2).label(), "blocked");
    assert_eq!(State::new(3).label(), "paused");
    assert_eq!(State::new(4).label(), "shutdown");
    assert_eq!(State::new(5).label(), "shutoff");
    assert_eq!(State::new(6).label(), "crashed");
    assert_eq!(State::new(7).label(), "suspended");
    assert_eq!(State::new(42).label(), "unknown");
}
