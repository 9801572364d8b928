use async_dnssd::readiness::{PollReadiness, ReadinessAction};

#[test]
fn probe_before_starting_the_thread() {
    let mut r = PollReadiness::new();
    assert!(r.needs_probe(false));
    assert_eq!(r.poll_read_ready(false, true), ReadinessAction::Ready);
    assert!(!r.armed);
    assert_eq!(r.poll_read_ready(false, false), ReadinessAction::StartThread);
    assert!(r.armed);
    assert!(!r.needs_probe(false));
    assert_eq!(r.poll_read_ready(false, false), ReadinessAction::Wait);
    assert_eq!(r.poll_read_ready(true, false), ReadinessAction::Ready);
    assert!(!r.armed);
}

#[test]
fn clearing_rearms() {
    let mut r = PollReadiness::new();
    assert_eq!(r.clear_read_ready(false, false), ReadinessAction::StartThread);
    assert!(r.armed);
    assert_eq!(r.clear_read_ready(false, false), ReadinessAction::Wait);
    let mut r = PollReadiness::new();
    assert_eq!(r.clear_read_ready(false, true), ReadinessAction::PostResponse);
    assert!(r.armed);
    let mut r = PollReadiness::new();
    assert_eq!(r.clear_read_ready(true, false), ReadinessAction::PostResponse);
    assert!(r.armed);
}
