//! The persistent push connection as a state machine: the caller performs each
//! action it returns and reports what happened as the next event.
use vstd::prelude::*;

verus! {

/// Delay before the first reconnect, in milliseconds.
pub const DEFAULT_BACKOFF_BASE_MS: u64 = 1000;

/// Longest delay between reconnects, in milliseconds.
pub const DEFAULT_BACKOFF_MAX_MS: u64 = 30000;

/// Interval between heartbeats, in milliseconds.
pub const DEFAULT_HEARTBEAT_MS: u64 = 30000;

#[derive(Clone, Copy, Debug, PartialEq, Eq, Structural)]
pub enum ConnState {
    Disconnected,
    Connecting,
    Connected,
    /// Shut down by the caller; nothing leaves this state.
    Closed,
}

/// What happened to the connection.
#[derive(Clone, Copy, Debug, PartialEq, Eq, Structural)]
pub enum ConnEvent {
    Start,
    HandshakeOk,
    HandshakeFailed,
    ReadFailed,
    HeartbeatTimeout,
    ServerClosed,
    /// The backoff delay has passed.
    RetryTimerFired,
    Shutdown,
}

/// What the caller does next.
#[derive(Clone, Copy, Debug, PartialEq, Eq, Structural)]
pub enum ConnAction {
    Nothing,
    /// Exchange the app credentials for a session.
    Handshake,
    /// Start the read loop and the heartbeat timer.
    StartReading,
    /// Wait this many milliseconds, then report `RetryTimerFired`.
    WaitThenReconnect(u64),
    /// Release the connection; no reconnect follows.
    Release,
}

#[derive(Clone, Copy, Debug, PartialEq, Eq, Structural)]
pub struct ConnectionManager {
    pub state: ConnState,
    /// Failures since the last successful handshake.
    pub failures: u32,
    pub backoff_base_ms: u64,
    pub backoff_max_ms: u64,
}

/// The delay after `n` consecutive failures: the base, doubled for each
/// further failure, never above the maximum.
pub open spec fn backoff(base: int, max: int, n: nat) -> int
    decreases n,
{
    if n <= 1 {
        if base < max { base } else { max }
    } else {
        let d = 2 * backoff(base, max, (n - 1) as nat);
        if d < max { d } else { max }
    }
}

/// The delay is positive, at most the maximum, and does not shrink as failures
/// accumulate.
pub proof fn law_backoff_bounded_monotone(base: int, max: int, n: nat, m: nat)
    requires
        0 < base <= max,
        n <= m,
    ensures
        0 < backoff(base, max, n) <= backoff(base, max, m) <= max,
    decreases m,
{
    if m > n {
        law_backoff_bounded_monotone(base, max, n, (m - 1) as nat);
    } else if n > 1 {
        law_backoff_bounded_monotone(base, max, (n - 1) as nat, (n - 1) as nat);
    }
}

/// The delay after `n` consecutive failures.
pub fn backoff_delay(base: u64, max: u64, n: u32) -> (r: u64)
    requires
        0 < base <= max,
    ensures
        r == backoff(base as int, max as int, n as nat),
{
    let mut d: u64 = if base < max { base } else { max };
    let mut i: u32 = 1;
    while i < n
        invariant
            1 <= i,
            i <= n || n <= 1,
            n <= 1 ==> i == 1,
            d == backoff(base as int, max as int, i as nat),
            0 < d <= max,
        decreases n - i,
    {
        d = if d < max / 2 { 2 * d } else if 2 * (d as u128) < max as u128 { 2 * d } else { max };
        i = i + 1;
    }
    proof {
        if n <= 1 {
            assert(backoff(base as int, max as int, n as nat) == backoff(base as int, max as int, 1));
        }
    }
    d
}

/// The state and action after `e` happens in state `s`.
pub open spec fn conn_step(m: ConnectionManager, e: ConnEvent) -> (ConnectionManager, ConnAction) {
    let failed = ConnectionManager {
        state: ConnState::Disconnected,
        failures: if m.failures < u32::MAX { (m.failures + 1) as u32 } else { m.failures },
        ..m
    };
    if e == ConnEvent::Shutdown {
        (ConnectionManager { state: ConnState::Closed, ..m }, ConnAction::Release)
    } else {
        match m.state {
            ConnState::Disconnected => if e == ConnEvent::Start || e == ConnEvent::RetryTimerFired {
                (ConnectionManager { state: ConnState::Connecting, ..m }, ConnAction::Handshake)
            } else {
                (m, ConnAction::Nothing)
            },
            ConnState::Connecting => if e == ConnEvent::HandshakeOk {
                (ConnectionManager { state: ConnState::Connected, failures: 0, ..m }, ConnAction::StartReading)
            } else if e == ConnEvent::HandshakeFailed {
                (failed, ConnAction::WaitThenReconnect(
                    backoff(m.backoff_base_ms as int, m.backoff_max_ms as int, failed.failures as nat) as u64,
                ))
            } else {
                (m, ConnAction::Nothing)
            },
            ConnState::Connected => if e == ConnEvent::ReadFailed || e == ConnEvent::HeartbeatTimeout || e
                == ConnEvent::ServerClosed {
                (failed, ConnAction::WaitThenReconnect(
                    backoff(m.backoff_base_ms as int, m.backoff_max_ms as int, failed.failures as nat) as u64,
                ))
            } else {
                (m, ConnAction::Nothing)
            },
            ConnState::Closed => (m, ConnAction::Nothing),
        }
    }
}

impl ConnectionManager {
    pub open spec fn wf(self) -> bool {
        0 < self.backoff_base_ms <= self.backoff_max_ms
    }

    /// A disconnected manager with the given backoff bounds.
    pub fn new(backoff_base_ms: u64, backoff_max_ms: u64) -> (r: ConnectionManager)
        requires
            0 < backoff_base_ms <= backoff_max_ms,
        ensures
            r.wf(),
            r.state == ConnState::Disconnected,
            r.failures == 0,
            r.backoff_base_ms == backoff_base_ms,
            r.backoff_max_ms == backoff_max_ms,
    {
        ConnectionManager { state: ConnState::Disconnected, failures: 0, backoff_base_ms, backoff_max_ms }
    }

    /// Applies one event.
    pub fn step(&mut self, e: ConnEvent) -> (r: ConnAction)
        requires
            old(self).wf(),
        ensures
            final(self).wf(),
            (*final(self), r) == conn_step(*old(self), e),
    {
        if e == ConnEvent::Shutdown {
            self.state = ConnState::Closed;
            return ConnAction::Release;
        }
        let lost = match self.state {
            ConnState::Disconnected => {
                if e == ConnEvent::Start || e == ConnEvent::RetryTimerFired {
                    self.state = ConnState::Connecting;
                    return ConnAction::Handshake;
                }
                false
            },
            ConnState::Connecting => {
                if e == ConnEvent::HandshakeOk {
                    self.state = ConnState::Connected;
                    self.failures = 0;
                    return ConnAction::StartReading;
                }
                e == ConnEvent::HandshakeFailed
            },
            ConnState::Connected => e == ConnEvent::ReadFailed || e == ConnEvent::HeartbeatTimeout || e
                == ConnEvent::ServerClosed,
            ConnState::Closed => false,
        };
        if lost {
            self.state = ConnState::Disconnected;
            if self.failures < u32::MAX {
                self.failures = self.failures + 1;
            }
            ConnAction::WaitThenReconnect(backoff_delay(self.backoff_base_ms, self.backoff_max_ms, self.failures))
        } else {
            ConnAction::Nothing
        }
    }
}

/// A read failure while connected leads to `Disconnected` with a positive
/// delay, then to `Connecting` when the delay has passed; each further
/// consecutive failure waits at least as long as the one before, and never
/// longer than the maximum.
pub proof fn law_reconnect_backoff(m: ConnectionManager, e: ConnEvent)
    requires
        m.wf(),
        m.state == ConnState::Connected,
        e == ConnEvent::ReadFailed || e == ConnEvent::HeartbeatTimeout || e == ConnEvent::ServerClosed,
    ensures
        ({
            let (m1, a1) = conn_step(m, e);
            let (m2, a2) = conn_step(m1, ConnEvent::RetryTimerFired);
            let (m3, a3) = conn_step(m2, ConnEvent::HandshakeFailed);
            &&& m1.state == ConnState::Disconnected
            &&& a1 matches ConnAction::WaitThenReconnect(d1)
            &&& m2.state == ConnState::Connecting
            &&& a2 == ConnAction::Handshake
            &&& m3.state == ConnState::Disconnected
            &&& a3 matches ConnAction::WaitThenReconnect(d3)
            &&& 0 < a1->WaitThenReconnect_0 <= a3->WaitThenReconnect_0 <= m.backoff_max_ms
        }),
{
    let (m1, _) = conn_step(m, e);
    let (m2, _) = conn_step(m1, ConnEvent::RetryTimerFired);
    let (m3, _) = conn_step(m2, ConnEvent::HandshakeFailed);
    law_backoff_bounded_monotone(m.backoff_base_ms as int, m.backoff_max_ms as int, m1.failures as nat, m3.failures as nat);
}

/// Once closed, the manager stays closed and asks for no further work.
pub proof fn law_closed_is_final(m: ConnectionManager, e: ConnEvent)
    requires
        m.state == ConnState::Closed,
    ensures
        conn_step(m, e).0.state == ConnState::Closed,
        e != ConnEvent::Shutdown ==> conn_step(m, e).1 == ConnAction::Nothing,
{
}

} // verus!
