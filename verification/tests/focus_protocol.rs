use multibox::focus::{FocusAction, FocusError, FocusSession};

/// Drives one protocol run against a simulated operating-system layer that
/// answers each step from a script, and records which steps were demanded.
fn drive(script: &[(FocusAction, bool)]) -> (Vec<FocusAction>, Result<(), FocusError>) {
    let mut session = FocusSession::new();
    let mut performed = Vec::new();
    let mut cursor = 0;
    loop {
        match session.next_action() {
            None => break,
            Some(action) => {
                assert!(cursor < script.len(), "protocol demanded more steps than scripted");
                let (expected, ok) = script[cursor];
                assert_eq!(action, expected);
                performed.push(action);
                session.advance(ok);
                cursor += 1;
            }
        }
    }
    assert_eq!(cursor, script.len(), "protocol stopped before the script ran out");
    (performed, session.outcome().unwrap())
}

#[test]
fn successful_run_performs_all_four_steps() {
    let (steps, outcome) = drive(&[
        (FocusAction::Attach, true),
        (FocusAction::Restore, true),
        (FocusAction::RaiseForeground, true),
        (FocusAction::Detach, true),
    ]);
    assert_eq!(steps.len(), 4);
    assert_eq!(outcome, Ok(()));
}

#[test]
fn failed_attach_aborts_without_detach() {
    let (steps, outcome) = drive(&[(FocusAction::Attach, false)]);
    assert!(!steps.contains(&FocusAction::Detach));
    assert_eq!(outcome, Err(FocusError::AttachFailed));
}

#[test]
fn detach_attempted_even_when_restore_fails() {
    let (steps, outcome) = drive(&[
        (FocusAction::Attach, true),
        (FocusAction::Restore, false),
        (FocusAction::Detach, true),
    ]);
    assert!(steps.contains(&FocusAction::Detach));
    assert_eq!(outcome, Err(FocusError::RestoreFailed));
}

#[test]
fn detach_attempted_even_when_foreground_fails() {
    let (steps, outcome) = drive(&[
        (FocusAction::Attach, true),
        (FocusAction::Restore, true),
        (FocusAction::RaiseForeground, false),
        (FocusAction::Detach, true),
    ]);
    assert!(steps.contains(&FocusAction::Detach));
    assert_eq!(outcome, Err(FocusError::ForegroundFailed));
}

#[test]
fn failed_detach_is_surfaced_even_after_successful_foreground() {
    let (steps, outcome) = drive(&[
        (FocusAction::Attach, true),
        (FocusAction::Restore, true),
        (FocusAction::RaiseForeground, true),
        (FocusAction::Detach, false),
    ]);
    assert!(steps.contains(&FocusAction::Detach));
    assert_eq!(outcome, Err(FocusError::DetachFailed));
}

#[test]
fn failed_detach_outranks_earlier_failure() {
    let (steps, outcome) = drive(&[
        (FocusAction::Attach, true),
        (FocusAction::Restore, false),
        (FocusAction::Detach, false),
    ]);
    assert!(steps.contains(&FocusAction::Detach));
    assert_eq!(outcome, Err(FocusError::DetachFailed));
}
