use topic_bridge::supervisor::{
    ConnectionState, ConnectionSupervisor, Phase, ProbeOutcome, SupervisorAction, SupervisorEvent,
};

fn arrive(s: &mut ConnectionSupervisor, t: u64) -> SupervisorAction {
    s.step(SupervisorEvent::MessageArrived(t))
}

fn probe(s: &mut ConnectionSupervisor, state: ConnectionState) -> SupervisorAction {
    s.step(SupervisorEvent::ProbeCompleted(ProbeOutcome::Reported(state)))
}

#[test]
fn disconnect_then_connected_reconnects_once() {
    let mut s = ConnectionSupervisor::new(2000, 0);
    assert_eq!(arrive(&mut s, 100), SupervisorAction::Forward);
    assert_eq!(arrive(&mut s, 2000), SupervisorAction::Probe);
    assert_eq!(probe(&mut s, ConnectionState::Disconnected("gone".to_string())), SupervisorAction::Reconnect);
    assert_eq!(s.step(SupervisorEvent::ReconnectCompleted(true)), SupervisorAction::ReplaceHandleAndForward);
    assert_eq!(arrive(&mut s, 3000), SupervisorAction::Forward);
    assert_eq!(arrive(&mut s, 4000), SupervisorAction::Probe);
    assert_eq!(probe(&mut s, ConnectionState::Connected), SupervisorAction::Forward);
    assert_eq!(s.reconnect_attempts, 1);
    assert_eq!(s.failed_reconnects, 0);
    assert_eq!(s.phase, Phase::Idle);
}

#[test]
fn failed_reconnects_keep_check_cadence() {
    let mut s = ConnectionSupervisor::new(2000, 0);
    for round in 1..=3u64 {
        let t = round * 2000;
        assert_eq!(arrive(&mut s, t - 1), SupervisorAction::Forward);
        assert_eq!(arrive(&mut s, t), SupervisorAction::Probe);
        assert_eq!(s.step(SupervisorEvent::ProbeCompleted(ProbeOutcome::TimedOut)), SupervisorAction::Reconnect);
        assert_eq!(s.step(SupervisorEvent::ReconnectCompleted(false)), SupervisorAction::Forward);
        assert_eq!(s.last_check_ms, t);
    }
    assert_eq!(s.reconnect_attempts, 3);
    assert_eq!(s.failed_reconnects, 3);
}

#[test]
fn connecting_counts_as_healthy() {
    let mut s = ConnectionSupervisor::new(10, 0);
    assert_eq!(arrive(&mut s, 10), SupervisorAction::Probe);
    assert_eq!(probe(&mut s, ConnectionState::Connecting), SupervisorAction::Forward);
    assert_eq!(s.reconnect_attempts, 0);
}

#[test]
fn unexpected_events_are_ignored() {
    let mut s = ConnectionSupervisor::new(10, 0);
    let before = s;
    assert_eq!(s.step(SupervisorEvent::ReconnectCompleted(true)), SupervisorAction::Ignore);
    assert_eq!(probe(&mut s, ConnectionState::Connected), SupervisorAction::Ignore);
    assert_eq!(s, before);
}
