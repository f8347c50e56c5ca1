use mcp_multi_tool::run::{InspectionRun, RunState};

#[test]
fn state_transitions() {
    let mut r = InspectionRun::new();
    assert!(matches!(r.state, RunState::Pending));
    r.start();
    assert!(matches!(r.state, RunState::Processing));
    r.capture();
    assert!(matches!(r.state, RunState::Captured));
}

#[test]
fn run_can_fail_from_pending_and_processing() {
    let mut fresh = InspectionRun::new();
    fresh.fail();
    assert_eq!(fresh.state, RunState::Failed);

    let mut started = InspectionRun::new();
    let id = started.id;
    started.start();
    started.fail();
    assert_eq!(started.state, RunState::Failed);
    assert_eq!(started.id, id);
}

#[test]
fn run_state_names() {
    assert_eq!(RunState::Pending.as_str(), "pending");
    assert_eq!(RunState::Processing.as_str(), "processing");
    assert_eq!(RunState::Captured.as_str(), "captured");
    assert_eq!(RunState::Failed.as_str(), "failed");
}

#[test]
fn runs_get_fresh_identifiers() {
    let a = InspectionRun::new();
    let b = InspectionRun::new();
    assert_ne!(a.id, b.id);
    let copy = a.clone();
    assert_eq!(copy.id, a.id);
    assert_eq!(copy.state, a.state);
}
