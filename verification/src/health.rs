//! Whether the engine runs, and why it does not.

use vstd::prelude::*;

use crate::time::age;

verus! {

#[derive(Debug, Clone, Copy, PartialEq, Eq, Structural)]
pub enum RunState {
    Stopped,
    Running,
    Faulted,
}

/// The state of the engine and of what it depends on.
///
/// A running engine holds a lease: it runs until no heartbeat has come for longer than the
/// lease.
#[derive(Debug)]
pub struct HealthState {
    pub state: RunState,
    pub market_ready: bool,
    pub audit_healthy: bool,
    pub last_binance_ms: u64,
    pub last_book_ms: u64,
    pub fault_code: u8,
    pub lease_timeout_ms: u64,
    pub last_heartbeat_ms: u64,
}

#[derive(Debug)]
pub struct HealthSnapshot {
    pub state: &'static str,
    pub market_ready: bool,
    pub audit_healthy: bool,
    pub last_binance_ms: u64,
    pub last_book_ms: u64,
    pub fault: &'static str,
    pub live_execution_enabled: bool,
}

pub open spec fn state_label(state: RunState) -> &'static str {
    match state {
        RunState::Running => "running",
        RunState::Faulted => "faulted",
        RunState::Stopped => "stopped",
    }
}

pub open spec fn fault_label(code: u8) -> &'static str {
    if code == 1 {
        "audit_backpressure"
    } else if code == 2 {
        "binance_backpressure"
    } else if code == 3 {
        "execution_backpressure"
    } else if code == 4 {
        "heartbeat_timeout"
    } else if code == 5 {
        "position_open_manual_intervention"
    } else {
        "none"
    }
}

impl HealthState {
    /// What a request to start is answered.
    pub open spec fn may_start(self) -> Result<(), &'static str> {
        if !self.market_ready {
            Err("market_not_ready")
        } else if !self.audit_healthy {
            Err("audit_unhealthy")
        } else if self.state == RunState::Faulted {
            Err("faulted_restart_process")
        } else {
            Ok(())
        }
    }

    /// The state after a fault.
    pub open spec fn tripped(self, code: u8) -> Self {
        HealthState {
            state: RunState::Faulted,
            fault_code: code,
            audit_healthy: self.audit_healthy && code != 1,
            ..self
        }
    }

    pub open spec fn stopped(self) -> Self {
        HealthState { state: RunState::Stopped, ..self }
    }

    /// The state after a request to start at `now` with a lease.
    pub open spec fn leased(self, now: u64, lease_timeout_ms: u64) -> Self {
        if self.may_start() is Ok {
            HealthState {
                state: RunState::Running,
                lease_timeout_ms,
                last_heartbeat_ms: now,
                ..self
            }
        } else {
            self
        }
    }

    /// The engine runs although its lease has run out.
    pub open spec fn lease_over(self, now: u64) -> bool {
        self.state == RunState::Running && age(now, self.last_heartbeat_ms)
            > self.lease_timeout_ms
    }

    pub open spec fn accepting(self) -> bool {
        self.state != RunState::Faulted && self.audit_healthy
    }

    pub fn new() -> (r: Self)
        ensures
            r == (HealthState {
                state: RunState::Stopped,
                market_ready: false,
                audit_healthy: true,
                last_binance_ms: 0,
                last_book_ms: 0,
                fault_code: 0,
                lease_timeout_ms: 0,
                last_heartbeat_ms: 0,
            }),
    {
        HealthState {
            state: RunState::Stopped,
            market_ready: false,
            audit_healthy: true,
            last_binance_ms: 0,
            last_book_ms: 0,
            fault_code: 0,
            lease_timeout_ms: 0,
            last_heartbeat_ms: 0,
        }
    }

    pub fn is_running(&self) -> (r: bool)
        ensures
            r == (self.state == RunState::Running),
    {
        self.state == RunState::Running
    }

    fn check_start(&self) -> (r: Result<(), &'static str>)
        ensures
            r == self.may_start(),
    {
        if !self.market_ready {
            return Err("market_not_ready");
        }
        if !self.audit_healthy {
            return Err("audit_unhealthy");
        }
        if self.state == RunState::Faulted {
            return Err("faulted_restart_process");
        }
        Ok(())
    }

    /// Starts the engine under the lease that it has.
    pub fn start(&mut self) -> (r: Result<(), &'static str>)
        ensures
            r == old(self).may_start(),
            *final(self) == (HealthState {
                state: if r is Ok {
                    RunState::Running
                } else {
                    old(self).state
                },
                ..*old(self)
            }),
    {
        let r: Result<(), &'static str> = self.check_start();
        if r.is_ok() {
            self.state = RunState::Running;
        }
        r
    }

    /// Starts the engine, or goes on running it, under a new lease.
    pub fn start_lease(&mut self, now_ms: u64, lease_timeout_ms: u64) -> (r: Result<
        (),
        &'static str,
    >)
        ensures
            r == old(self).may_start(),
            *final(self) == old(self).leased(now_ms, lease_timeout_ms),
    {
        let r: Result<(), &'static str> = self.start();
        if r.is_ok() {
            self.lease_timeout_ms = lease_timeout_ms;
            self.last_heartbeat_ms = now_ms;
        }
        r
    }

    /// Renews the lease of a running engine.
    pub fn heartbeat(&mut self, now_ms: u64) -> (r: Result<(), &'static str>)
        ensures
            r == (if old(self).state == RunState::Running {
                Ok::<(), &'static str>(())
            } else {
                Err("engine_not_running")
            }),
            *final(self) == if old(self).state == RunState::Running {
                HealthState { last_heartbeat_ms: now_ms, ..*old(self) }
            } else {
                *old(self)
            },
    {
        if self.state == RunState::Running {
            self.last_heartbeat_ms = now_ms;
            Ok(())
        } else {
            Err("engine_not_running")
        }
    }

    pub fn lease_timeout_ms(&self) -> (r: u64)
        ensures
            r == self.lease_timeout_ms,
    {
        self.lease_timeout_ms
    }

    /// Whether the engine runs although its lease has run out.
    pub fn heartbeat_expired(&self, now_ms: u64) -> (r: bool)
        ensures
            r == self.lease_over(now_ms),
    {
        self.state == RunState::Running && now_ms.saturating_sub(self.last_heartbeat_ms)
            > self.lease_timeout_ms
    }

    pub fn stop(&mut self)
        ensures
            *final(self) == old(self).stopped(),
    {
        self.state = RunState::Stopped;
    }

    /// Faults the engine.
    pub fn trip(&mut self, code: u8)
        ensures
            *final(self) == old(self).tripped(code),
    {
        if code == 1 {
            self.audit_healthy = false;
        }
        self.fault_code = code;
        self.state = RunState::Faulted;
    }

    pub fn set_market_ready(&mut self, ready: bool)
        ensures
            *final(self) == (HealthState { market_ready: ready, ..*old(self) }),
    {
        self.market_ready = ready;
    }

    pub fn market_ready(&self) -> (r: bool)
        ensures
            r == self.market_ready,
    {
        self.market_ready
    }

    pub fn mark_binance(&mut self, now_ms: u64)
        ensures
            *final(self) == (HealthState { last_binance_ms: now_ms, ..*old(self) }),
    {
        self.last_binance_ms = now_ms;
    }

    pub fn mark_book(&mut self, now_ms: u64)
        ensures
            *final(self) == (HealthState { last_book_ms: now_ms, ..*old(self) }),
    {
        self.last_book_ms = now_ms;
    }

    pub fn is_faulted(&self) -> (r: bool)
        ensures
            r == (self.state == RunState::Faulted),
    {
        self.state == RunState::Faulted
    }

    pub fn accepting_commands(&self) -> (r: bool)
        ensures
            r == self.accepting(),
    {
        !self.is_faulted() && self.audit_healthy
    }

    pub fn snapshot(&self) -> (r: HealthSnapshot)
        ensures
            r == (HealthSnapshot {
                state: state_label(self.state),
                market_ready: self.market_ready,
                audit_healthy: self.audit_healthy,
                last_binance_ms: self.last_binance_ms,
                last_book_ms: self.last_book_ms,
                fault: fault_label(self.fault_code),
                live_execution_enabled: false,
            }),
    {
        HealthSnapshot {
            state: match self.state {
                RunState::Running => "running",
                RunState::Faulted => "faulted",
                RunState::Stopped => "stopped",
            },
            market_ready: self.market_ready,
            audit_healthy: self.audit_healthy,
            last_binance_ms: self.last_binance_ms,
            last_book_ms: self.last_book_ms,
            fault: match self.fault_code {
                1 => "audit_backpressure",
                2 => "binance_backpressure",
                3 => "execution_backpressure",
                4 => "heartbeat_timeout",
                5 => "position_open_manual_intervention",
                _ => "none",
            },
            live_execution_enabled: false,
        }
    }
}

impl Default for HealthState {
    fn default() -> (r: Self)
        ensures
            r == (HealthState {
                state: RunState::Stopped,
                market_ready: false,
                audit_healthy: true,
                last_binance_ms: 0,
                last_book_ms: 0,
                fault_code: 0,
                lease_timeout_ms: 0,
                last_heartbeat_ms: 0,
            }),
    {
        Self::new()
    }
}

/// A faulted engine does not start, and goes on refusing whatever becomes of the market, until a
/// stop takes the fault away.
pub proof fn law_fault_refuses_start(h: HealthState, code: u8, ready: bool)
    ensures
        h.tripped(code).may_start() is Err,
        (HealthState { market_ready: ready, ..h.tripped(code) }).may_start() is Err,
        !h.tripped(code).accepting(),
{
}

/// A failed audit log is never healed: nothing but a new process starts the engine again.
pub proof fn law_audit_fault_is_final(h: HealthState, now: u64, lease: u64)
    requires
        !h.audit_healthy,
    ensures
        h.may_start() is Err,
        !h.stopped().audit_healthy,
        !h.leased(now, lease).audit_healthy,
        !h.stopped().accepting(),
        h.stopped().may_start() is Err,
        forall|code: u8| !(#[trigger] h.tripped(code)).audit_healthy,
{
}

/// The engine starts only with the market ready, the audit log healthy and no fault.
pub proof fn law_start_is_guarded(h: HealthState)
    ensures
        h.may_start() is Ok <==> h.market_ready && h.audit_healthy && h.state
            != RunState::Faulted,
{
}

/// A heartbeat within the lease keeps the engine running for another lease from then on.
pub proof fn law_lease(h: HealthState, now: u64, lease: u64, later: u64)
    requires
        h.may_start() is Ok,
    ensures
        h.leased(now, lease).state == RunState::Running,
        h.leased(now, lease).lease_over(later) <==> later > now + lease,
{
}

/// A fault stops the engine under its code, a stop takes the running state and nothing else away, and
/// only the fault of the audit log makes that log unhealthy.
pub proof fn law_faults_and_stops(h: HealthState, code: u8)
    ensures
        h.tripped(code).state == RunState::Faulted,
        h.tripped(code).fault_code == code,
        code == 1 ==> !h.tripped(code).audit_healthy,
        code != 1 ==> h.tripped(code).audit_healthy == h.audit_healthy,
        h.tripped(code).market_ready == h.market_ready,
        h.tripped(code).lease_timeout_ms == h.lease_timeout_ms,
        h.tripped(code).last_heartbeat_ms == h.last_heartbeat_ms,
        h.stopped() == (HealthState { state: RunState::Stopped, ..h }),
        h.accepting() <==> h.state != RunState::Faulted && h.audit_healthy,
{
}

/// A lease is over exactly where an engine runs and no heartbeat has come for longer than it.
pub proof fn law_lease_over(h: HealthState, now: u64)
    ensures
        h.lease_over(now) <==> h.state == RunState::Running && now > h.last_heartbeat_ms
            + h.lease_timeout_ms,
{
}

/// A refused start is told the first thing that is in its way.
pub proof fn law_start_answers(h: HealthState)
    ensures
        !h.market_ready ==> h.may_start() == Err::<(), &'static str>("market_not_ready"),
        h.market_ready && !h.audit_healthy ==> h.may_start() == Err::<(), &'static str>(
            "audit_unhealthy",
        ),
        h.market_ready && h.audit_healthy && h.state == RunState::Faulted ==> h.may_start()
            == Err::<(), &'static str>("faulted_restart_process"),
{
}

/// Each state and each fault has a name of its own.
pub proof fn law_names(code: u8)
    ensures
        state_label(RunState::Running) == "running",
        state_label(RunState::Faulted) == "faulted",
        state_label(RunState::Stopped) == "stopped",
        fault_label(1) == "audit_backpressure",
        fault_label(2) == "binance_backpressure",
        fault_label(3) == "execution_backpressure",
        fault_label(4) == "heartbeat_timeout",
        fault_label(5) == "position_open_manual_intervention",
        code == 0 || code > 5 ==> fault_label(code) == "none",
{
}

} // verus!
