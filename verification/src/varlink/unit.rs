//! The reply of `io.systemd.Unit.List` for one unit (systemd v261 and later),
//! reduced to the fields the collectors map onto their stats.
//!
//! systemd omits a field that sits at its default rather than sending a zero,
//! so nearly everything here is optional and the mapping supplies the default.
use vstd::prelude::*;

verus! {

/// Output parameters of the `List` method.
#[derive(Debug, Clone, PartialEq, Eq)]
pub struct ListOutput {
    /// Unit configuration.
    pub context: Option<UnitContext>,
    /// Unit runtime state.
    pub runtime: Option<UnitRuntime>,
}

/// Configuration of a unit.
#[derive(Debug, Clone, PartialEq, Eq)]
pub struct UnitContext {
    pub service: Option<ServiceContext>,
    /// Execution configuration (the `Exec` section).
    pub exec_context: Option<ExecContext>,
    pub timer: Option<TimerContext>,
}

/// Execution configuration shared by every unit type that runs processes.
#[derive(Debug, Clone, Copy, PartialEq, Eq, Structural)]
pub struct ExecContext {
    /// Timeout for cleaning up resources after the unit exits.
    pub timeout_clean_usec: Option<u64>,
}

/// Timer-specific configuration.
#[derive(Debug, Clone, PartialEq, Eq)]
pub struct TimerContext {
    /// Unit this timer triggers, e.g. "logrotate.service".
    pub unit: Option<String>,
    pub accuracy_usec: Option<u64>,
    pub randomized_delay_usec: Option<u64>,
    pub fixed_random_delay: Option<bool>,
    pub persistent: Option<bool>,
    pub remain_after_elapse: Option<bool>,
}

/// Service-specific configuration.
#[derive(Debug, Clone, PartialEq, Eq)]
pub struct ServiceContext {
    /// Service type (`Type=`): simple, oneshot, notify, notify-reload, ...
    pub service_type: Option<String>,
    /// Configured restart delay in microseconds.
    pub restart_usec: Option<u64>,
    /// Configured watchdog timeout in microseconds.
    pub watchdog_usec: Option<u64>,
}

/// Runtime state of a unit.
#[derive(Debug, Clone, PartialEq, Eq)]
pub struct UnitRuntime {
    pub state_change_timestamp: Option<Timestamp>,
    pub active_enter_timestamp: Option<Timestamp>,
    pub inactive_exit_timestamp: Option<Timestamp>,
    /// Present once the unit has actually left the active state.
    pub active_exit_timestamp: Option<Timestamp>,
    pub cgroup: Option<CGroupRuntime>,
    pub service: Option<ServiceRuntime>,
    pub timer: Option<TimerRuntime>,
}

/// Timer-specific runtime state.
#[derive(Debug, Clone, Copy, PartialEq, Eq, Structural)]
pub struct TimerRuntime {
    /// Next elapse on CLOCK_REALTIME; 0 for a purely monotonic timer.
    pub next_elapse_usec_realtime: Option<u64>,
    pub next_elapse_usec_monotonic: Option<u64>,
    /// When the timer last fired; absent if it never has.
    pub last_trigger_usec: Option<Timestamp>,
}

/// A systemd timestamp, carrying both clocks.
#[derive(Debug, Clone, Copy, PartialEq, Eq, Structural)]
pub struct Timestamp {
    pub realtime: Option<u64>,
    pub monotonic: Option<u64>,
}

/// cgroup accounting for a unit; a field is present only when the matching
/// accounting option is on for the unit.
#[derive(Debug, Clone, PartialEq, Eq)]
pub struct CGroupRuntime {
    /// cgroup path, relative to the cgroup mount point.
    pub path: Option<String>,
    pub cpu_usage_nsec: Option<u64>,
    pub memory_current: Option<u64>,
    pub memory_available: Option<u64>,
    pub tasks_current: Option<u64>,
    pub io_read_bytes: Option<u64>,
    pub io_read_operations: Option<u64>,
}

/// Service-specific runtime state.
#[derive(Debug, Clone, Copy, PartialEq, Eq, Structural)]
pub struct ServiceRuntime {
    /// Main process of the service, if it has one.
    pub main_pid: Option<ProcessId>,
    /// Control process of the service, if one runs.
    pub control_pid: Option<ProcessId>,
    /// errno-style status reported by the service via sd_notify.
    pub status_errno: Option<i32>,
    /// Number of times systemd has restarted this service.
    pub n_restarts: Option<u32>,
}

/// A process reference.
#[derive(Debug, Clone, Copy, PartialEq, Eq, Structural)]
pub struct ProcessId {
    pub pid: Option<u32>,
}

/// Errors of the `io.systemd.Unit` interface.
#[derive(Debug, Clone, Copy, PartialEq, Eq, Structural)]
pub enum UnitError {
    /// No unit by that name is loaded.
    NoSuchUnit,
}

impl UnitError {
    /// The error's message.
    pub fn message(&self) -> (r: &'static str)
        ensures
            r@ == "No such unit"@,
    {
        "No such unit"
    }
}

} // verus!
