use fetchttp::{AbortController, AbortSignal, AbortState};

#[test]
fn test_abort_signal_new() {
    let signal = AbortSignal::new();
    assert!(!signal.aborted());
    assert!(signal.reason().is_none());
}

#[test]
fn test_abort_signal_abort() {
    let signal = AbortSignal::abort(Some("Test reason".to_string()));
    assert!(signal.aborted());
    assert_eq!(signal.reason().unwrap(), "Test reason");
}

#[test]
fn test_abort_signal_abort_no_reason() {
    let signal = AbortSignal::abort(None);
    assert!(signal.aborted());
    assert!(signal.reason().is_none());
}

#[test]
fn test_abort_signal_default() {
    let signal = AbortSignal::default();
    assert!(!signal.aborted());
    assert!(signal.reason().is_none());
}

#[test]
fn test_abort_controller_new() {
    let controller = AbortController::new();
    assert!(!controller.signal().aborted());
}

#[test]
fn test_abort_controller_abort() {
    let controller = AbortController::new();
    assert!(!controller.signal().aborted());

    controller.abort();
    assert!(controller.signal().aborted());
    assert_eq!(controller.signal().reason().unwrap(), "AbortError");
}

#[test]
fn test_abort_controller_default() {
    let controller = AbortController::default();
    assert!(!controller.signal().aborted());
}

#[test]
fn test_abort_signal_do_abort() {
    let signal = AbortSignal::new();
    assert!(!signal.aborted());

    signal.do_abort(Some("Manual abort".to_string()));
    assert!(signal.aborted());
    assert_eq!(signal.reason().unwrap(), "Manual abort");

    // Second abort should not change reason
    signal.do_abort(Some("Second abort".to_string()));
    assert_eq!(signal.reason().unwrap(), "Manual abort");
}

#[test]
fn test_abort_signal_clone() {
    let signal = AbortSignal::new();
    let cloned = signal.clone();

    // Initially both should not be aborted
    assert!(!signal.aborted());
    assert!(!cloned.aborted());

    signal.do_abort(Some("Test".to_string()));

    // Both should show aborted since they share the same inner state
    assert!(signal.aborted());
    assert!(cloned.aborted());
    assert_eq!(signal.reason().unwrap(), "Test");
    assert_eq!(cloned.reason().unwrap(), "Test");
}

#[test]
fn test_multiple_signal_clones() {
    let controller = AbortController::new();
    let signal1 = controller.signal().clone();
    let signal2 = controller.signal().clone();
    let signal3 = controller.signal().clone();

    // All should start not aborted
    assert!(!signal1.aborted());
    assert!(!signal2.aborted());
    assert!(!signal3.aborted());

    controller.abort();

    // All should now be aborted
    assert!(signal1.aborted());
    assert!(signal2.aborted());
    assert!(signal3.aborted());

    // All should have the same reason
    assert_eq!(signal1.reason().unwrap(), "AbortError");
    assert_eq!(signal2.reason().unwrap(), "AbortError");
    assert_eq!(signal3.reason().unwrap(), "AbortError");
}

#[test]
fn abort_through_a_clone_shows_in_the_first() {
    let signal = AbortSignal::new();
    let cloned = signal.clone();
    cloned.do_abort(None);
    assert!(signal.aborted());
    assert!(signal.reason().is_none());
    // a later abort with a reason changes nothing
    signal.do_abort(Some("late".to_string()));
    assert!(cloned.reason().is_none());
}

#[test]
fn do_abort_returns_the_record_it_left() {
    let signal = AbortSignal::new();
    let first = signal.do_abort(Some("one".to_string()));
    assert!(first.aborted);
    assert_eq!(first.reason.as_deref(), Some("one"));
    let second = signal.do_abort(Some("two".to_string()));
    assert!(second.aborted);
    assert_eq!(second.reason.as_deref(), Some("one"));
}

#[test]
fn made_aborted_signal_keeps_its_reason() {
    let signal = AbortSignal::abort(Some("first".to_string()));
    signal.do_abort(Some("second".to_string()));
    assert_eq!(signal.reason().unwrap(), "first");
    let state = signal.state();
    assert!(state.aborted);
    assert_eq!(state.reason.as_deref(), Some("first"));
}

#[test]
fn abort_state_record_first_wins() {
    let mut state = AbortState::new();
    assert!(!state.aborted);
    assert!(state.reason.is_none());
    state.record(Some("a".to_string()));
    assert!(state.aborted);
    assert_eq!(state.reason.as_deref(), Some("a"));
    state.record(None);
    assert!(state.aborted);
    assert_eq!(state.reason.as_deref(), Some("a"));
    let copy = state.duplicate();
    assert!(copy.aborted);
    assert_eq!(copy.reason.as_deref(), Some("a"));
}

#[test]
fn controller_abort_twice_keeps_reason() {
    let controller = AbortController::new();
    controller.abort();
    controller.abort();
    assert_eq!(controller.signal().reason().unwrap(), "AbortError");
}

fn shared_between_threads<T: Send + Sync>(_: &T) {}

#[test]
fn signal_and_controller_can_cross_threads() {
    shared_between_threads(&AbortSignal::new());
    shared_between_threads(&AbortController::new());
}
