use multibox::notifier::{focus_matches, FocusNotifier};

#[test]
fn scripted_sequence_fires_exactly_on_transitions() {
    // Polling the foreground values [A, A, B, B, A] raises exactly three
    // events, in order A, B, A: nothing fires on the repeated ticks.
    let a = 100;
    let b = 200;
    let mut n = FocusNotifier::new();
    let mut events = Vec::new();
    for &tick in &[a, a, b, b, a] {
        if let Some(v) = n.observe(tick) {
            events.push(v);
        }
    }
    assert_eq!(events, vec![a, b, a]);
}

#[test]
fn repeated_value_never_emits() {
    let mut n = FocusNotifier::new();
    assert_eq!(n.observe(7), Some(7));
    assert_eq!(n.observe(7), None);
    assert_eq!(n.observe(7), None);
}

#[test]
fn first_observation_always_emits() {
    let mut n = FocusNotifier::new();
    assert_eq!(n.observe(0), Some(0));
}

#[test]
fn focus_matches_own_window_or_active_match() {
    assert!(focus_matches(5, 5, None));
    assert!(focus_matches(5, 9, Some(5)));
    assert!(!focus_matches(5, 9, Some(6)));
    assert!(!focus_matches(5, 9, None));
}
