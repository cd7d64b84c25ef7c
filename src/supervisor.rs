//! The sink connection supervisor, as a state machine from state and event to next
//! state and action. The caller performs each action (probe the connection's health,
//! reconnect, forward the message) and hands back what came of it as the next event.

use vstd::prelude::*;

verus! {

/// How long a health probe may take before the connection counts as unhealthy.
pub const PROBE_TIMEOUT_MS: u64 = 100;

/// The health interval that the bridge uses by default.
pub const DEFAULT_CHECK_INTERVAL_MS: u64 = 2000;

/// What the sink reports about its outbound connection.
#[derive(Debug)]
pub enum ConnectionState {
    Connected,
    Connecting,
    Disconnected(String),
}

/// What came of a health probe.
#[derive(Debug)]
pub enum ProbeOutcome {
    Reported(ConnectionState),
    /// No report within the probe timeout.
    TimedOut,
}

/// A connection that is up or still being set up is healthy; a disconnected one,
/// or one whose probe timed out, is not.
pub open spec fn is_healthy(o: ProbeOutcome) -> bool {
    o matches ProbeOutcome::Reported(ConnectionState::Connected)
        || o matches ProbeOutcome::Reported(ConnectionState::Connecting)
}

/// Whether a probe outcome counts as healthy.
pub fn probe_is_healthy(o: &ProbeOutcome) -> (r: bool)
    ensures
        r == is_healthy(*o),
{
    match o {
        ProbeOutcome::Reported(ConnectionState::Connected) => true,
        ProbeOutcome::Reported(ConnectionState::Connecting) => true,
        _ => false,
    }
}

#[derive(Clone, Copy, Debug, PartialEq, Eq, Structural)]
pub enum Phase {
    /// Forwarding messages; a probe is started when one is due.
    Idle,
    /// A probe was asked for and its outcome is awaited.
    Probing,
    /// A reconnect was asked for and its outcome is awaited.
    Reconnecting,
}

/// What the caller is to do next.
#[derive(Clone, Copy, Debug, PartialEq, Eq, Structural)]
pub enum SupervisorAction {
    /// Forward the current message through the current handle.
    Forward,
    /// Probe the connection's health, within the probe timeout.
    Probe,
    /// Open a fresh connection to the same target.
    Reconnect,
    /// Replace the handle with the fresh connection, then forward the message.
    ReplaceHandleAndForward,
    /// The event was not expected in this phase; nothing to do.
    Ignore,
}

pub enum SupervisorEvent {
    /// A message arrived at this time, in milliseconds on a monotonic clock.
    MessageArrived(u64),
    ProbeCompleted(ProbeOutcome),
    /// Whether the reconnect succeeded.
    ReconnectCompleted(bool),
}

#[derive(Clone, Copy, Debug, PartialEq, Eq, Structural)]
pub struct ConnectionSupervisor {
    pub interval_ms: u64,
    pub last_check_ms: u64,
    pub phase: Phase,
    pub reconnect_attempts: u64,
    pub failed_reconnects: u64,
}

pub open spec fn saturating_inc(x: u64) -> u64 {
    if x < u64::MAX {
        (x + 1) as u64
    } else {
        x
    }
}

/// A health check is due at `now` when a full interval has passed since the last one.
pub open spec fn is_due(s: ConnectionSupervisor, now: u64) -> bool {
    now >= s.last_check_ms && now - s.last_check_ms >= s.interval_ms
}

/// The next state and the action for event `e` in state `s`.
pub open spec fn next(s: ConnectionSupervisor, e: SupervisorEvent) -> (
    ConnectionSupervisor,
    SupervisorAction,
) {
    match (s.phase, e) {
        (Phase::Idle, SupervisorEvent::MessageArrived(now)) => if is_due(s, now) {
            (
                ConnectionSupervisor { phase: Phase::Probing, last_check_ms: now, ..s },
                SupervisorAction::Probe,
            )
        } else {
            (s, SupervisorAction::Forward)
        },
        (Phase::Probing, SupervisorEvent::ProbeCompleted(o)) => if is_healthy(o) {
            (ConnectionSupervisor { phase: Phase::Idle, ..s }, SupervisorAction::Forward)
        } else {
            (
                ConnectionSupervisor {
                    phase: Phase::Reconnecting,
                    reconnect_attempts: saturating_inc(s.reconnect_attempts),
                    ..s
                },
                SupervisorAction::Reconnect,
            )
        },
        (Phase::Reconnecting, SupervisorEvent::ReconnectCompleted(ok)) => if ok {
            (
                ConnectionSupervisor { phase: Phase::Idle, ..s },
                SupervisorAction::ReplaceHandleAndForward,
            )
        } else {
            (
                ConnectionSupervisor {
                    phase: Phase::Idle,
                    failed_reconnects: saturating_inc(s.failed_reconnects),
                    ..s
                },
                SupervisorAction::Forward,
            )
        },
        _ => (s, SupervisorAction::Ignore),
    }
}

fn saturating_increment(x: u64) -> (r: u64)
    ensures
        r == saturating_inc(x),
{
    if x < u64::MAX {
        x + 1
    } else {
        x
    }
}

impl ConnectionSupervisor {
    /// A supervisor started at `now_ms` that checks health every `interval_ms`.
    pub fn new(interval_ms: u64, now_ms: u64) -> (r: Self)
        ensures
            r.interval_ms == interval_ms,
            r.last_check_ms == now_ms,
            r.phase == Phase::Idle,
            r.reconnect_attempts == 0,
            r.failed_reconnects == 0,
    {
        ConnectionSupervisor {
            interval_ms,
            last_check_ms: now_ms,
            phase: Phase::Idle,
            reconnect_attempts: 0,
            failed_reconnects: 0,
        }
    }

    /// Takes one event and says what to do next.
    pub fn step(&mut self, event: SupervisorEvent) -> (a: SupervisorAction)
        ensures
            (*final(self), a) == next(*old(self), event),
    {
        match (self.phase, event) {
            (Phase::Idle, SupervisorEvent::MessageArrived(now)) => {
                if now >= self.last_check_ms && now - self.last_check_ms >= self.interval_ms {
                    self.phase = Phase::Probing;
                    self.last_check_ms = now;
                    SupervisorAction::Probe
                } else {
                    SupervisorAction::Forward
                }
            },
            (Phase::Probing, SupervisorEvent::ProbeCompleted(o)) => {
                if probe_is_healthy(&o) {
                    self.phase = Phase::Idle;
                    SupervisorAction::Forward
                } else {
                    self.phase = Phase::Reconnecting;
                    self.reconnect_attempts = saturating_increment(self.reconnect_attempts);
                    SupervisorAction::Reconnect
                }
            },
            (Phase::Reconnecting, SupervisorEvent::ReconnectCompleted(ok)) => {
                self.phase = Phase::Idle;
                if ok {
                    SupervisorAction::ReplaceHandleAndForward
                } else {
                    self.failed_reconnects = saturating_increment(self.failed_reconnects);
                    SupervisorAction::Forward
                }
            },
            _ => SupervisorAction::Ignore,
        }
    }
}

/// A due check that finds the sink disconnected asks for exactly one reconnect and
/// then forwards again, through the fresh handle if the reconnect succeeded and
/// through the old one if not; the check is counted from the time it was started.
pub proof fn lemma_one_reconnect_per_failed_check(
    s: ConnectionSupervisor,
    now: u64,
    reason: String,
    ok: bool,
)
    requires
        s.phase == Phase::Idle,
        is_due(s, now),
    ensures
        ({
            let (s1, a1) = next(s, SupervisorEvent::MessageArrived(now));
            let (s2, a2) = next(
                s1,
                SupervisorEvent::ProbeCompleted(
                    ProbeOutcome::Reported(ConnectionState::Disconnected(reason)),
                ),
            );
            let (s3, a3) = next(s2, SupervisorEvent::ReconnectCompleted(ok));
            &&& a1 == SupervisorAction::Probe
            &&& a2 == SupervisorAction::Reconnect
            &&& a3 == if ok {
                SupervisorAction::ReplaceHandleAndForward
            } else {
                SupervisorAction::Forward
            }
            &&& s3.phase == Phase::Idle
            &&& s3.reconnect_attempts == saturating_inc(s.reconnect_attempts)
            &&& s3.last_check_ms == now
            &&& s3.interval_ms == s.interval_ms
        }),
{
}

/// Failed reconnects do not stop the health checks: in the idle phase a check is
/// started exactly when one is due, however many reconnects have failed, and after
/// a failed reconnect the next check is due one interval after the failed one began.
pub proof fn lemma_cadence_survives_failed_reconnects(s: ConnectionSupervisor, now: u64, t: u64)
    requires
        s.phase == Phase::Idle,
        is_due(s, now),
    ensures
        next(s, SupervisorEvent::MessageArrived(now)).1 == SupervisorAction::Probe,
        ({
            let (s1, _) = next(s, SupervisorEvent::MessageArrived(now));
            let (s2, _) = next(s1, SupervisorEvent::ProbeCompleted(ProbeOutcome::TimedOut));
            let (s3, _) = next(s2, SupervisorEvent::ReconnectCompleted(false));
            &&& s3.phase == Phase::Idle
            &&& (next(s3, SupervisorEvent::MessageArrived(t)).1 == SupervisorAction::Probe <==> (t
                >= now && t - now >= s.interval_ms))
        }),
{
}

/// A healthy probe forwards at once and asks for no reconnect.
pub proof fn lemma_healthy_probe_forwards(s: ConnectionSupervisor, o: ProbeOutcome)
    requires
        s.phase == Phase::Probing,
        is_healthy(o),
    ensures
        next(s, SupervisorEvent::ProbeCompleted(o)).1 == SupervisorAction::Forward,
        next(s, SupervisorEvent::ProbeCompleted(o)).0.reconnect_attempts == s.reconnect_attempts,
        next(s, SupervisorEvent::ProbeCompleted(o)).0.phase == Phase::Idle,
{
}

} // verus!
