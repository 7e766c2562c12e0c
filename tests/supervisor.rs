use wsld::supervisor::{
    on_connect_outcome, ConnectOutcome, PollAction, ProbeDecision, RetryBudget, RetryDecision,
    Supervisor, HOST_PROBE_RETRIES, LISTEN_ATTEMPTS,
};
use wsld::vmid::VmId;

const A: VmId = VmId { value: 0xa };
const B: VmId = VmId { value: 0xb };

#[test]
fn unchanged_identity_does_nothing() {
    let mut s = Supervisor::new();
    assert_eq!(s.poll(None), PollAction { cancel: false, start: None });
    assert_eq!(s.poll(Some(A)), PollAction { cancel: false, start: Some(A) });
    assert_eq!(s.poll(Some(A)), PollAction { cancel: false, start: None });
    assert!(s.running);
}

#[test]
fn changed_identity_restarts_the_listener() {
    let mut s = Supervisor::new();
    s.poll(Some(A));
    assert_eq!(s.poll(Some(B)), PollAction { cancel: true, start: Some(B) });
    assert_eq!(s.current, Some(B));
}

#[test]
fn vanished_identity_goes_idle() {
    let mut s = Supervisor::new();
    s.poll(Some(A));
    assert_eq!(s.poll(None), PollAction { cancel: true, start: None });
    assert_eq!(s, Supervisor { current: None, running: false });
    assert_eq!(s.poll(None), PollAction { cancel: false, start: None });
}

#[test]
fn listener_gets_three_attempts() {
    assert_eq!(LISTEN_ATTEMPTS, 3);
    let mut b = RetryBudget::listener();
    assert_eq!(b.on_failure(), RetryDecision::Retry);
    assert_eq!(b.on_failure(), RetryDecision::Retry);
    assert_eq!(b.on_failure(), RetryDecision::GiveUp);
    assert_eq!(b.on_failure(), RetryDecision::GiveUp);
}

#[test]
fn empty_budget_gives_up_at_once() {
    let mut b = RetryBudget::new(0);
    assert_eq!(b.on_failure(), RetryDecision::GiveUp);
    let mut c = RetryBudget::new(1);
    assert_eq!(c.on_failure(), RetryDecision::Retry);
    assert_eq!(c.on_failure(), RetryDecision::GiveUp);
}

#[test]
fn host_probe_retries_timeouts_only() {
    let mut b = RetryBudget::host_probe();
    assert_eq!(b.remaining, HOST_PROBE_RETRIES);
    for _ in 0..5 {
        assert_eq!(on_connect_outcome(&mut b, ConnectOutcome::TimedOut), ProbeDecision::Retry);
    }
    assert_eq!(on_connect_outcome(&mut b, ConnectOutcome::TimedOut), ProbeDecision::GiveUp);

    let mut c = RetryBudget::host_probe();
    assert_eq!(on_connect_outcome(&mut c, ConnectOutcome::Failed), ProbeDecision::GiveUp);
    assert_eq!(c.remaining, 5);
    assert_eq!(on_connect_outcome(&mut c, ConnectOutcome::Connected), ProbeDecision::SendProbe);
}
