//! The decisions of the collection loop: which collectors a run starts, how
//! long the daemon waits between runs, and what becomes of the shared D-Bus
//! connection when a run ends.
use vstd::prelude::*;

use crate::config::Config;

verus! {

/// The collectors a run starts besides the version collector, which always
/// runs.
#[derive(Clone, Copy, Debug, PartialEq, Eq, Structural)]
pub struct CollectorPlan {
    pub pid1: bool,
    pub networkd: bool,
    pub system_state: bool,
    pub units: bool,
    pub machines: bool,
    pub dbus_stats: bool,
    pub boot_blame: bool,
    pub verify: bool,
}

/// Each collector runs when its section is enabled.
pub fn plan_collectors(config: &Config) -> (r: CollectorPlan)
    ensures
        r == (CollectorPlan {
            pid1: config.pid1.enabled,
            networkd: config.networkd.enabled,
            system_state: config.system_state.enabled,
            units: config.units.enabled,
            machines: config.machines.enabled,
            dbus_stats: config.dbus_stats.enabled,
            boot_blame: config.boot_blame.enabled,
            verify: config.verify.enabled,
        }),
{
    CollectorPlan {
        pid1: config.pid1.enabled,
        networkd: config.networkd.enabled,
        system_state: config.system_state.enabled,
        units: config.units.enabled,
        machines: config.machines.enabled,
        dbus_stats: config.dbus_stats.enabled,
        boot_blame: config.boot_blame.enabled,
        verify: config.verify.enabled,
    }
}

impl CollectorPlan {
    /// Only the version collector runs (worth a warning).
    pub fn only_version(&self) -> (r: bool)
        ensures
            r == !(self.pid1 || self.networkd || self.system_state || self.units || self.machines
                || self.dbus_stats || self.boot_blame || self.verify),
    {
        !(self.pid1 || self.networkd || self.system_state || self.units || self.machines
            || self.dbus_stats || self.boot_blame || self.verify)
    }
}

/// Milliseconds between the starts of two runs: the refresh interval in
/// daemon mode, zero otherwise.
pub fn collect_interval_ms(config: &Config) -> (r: u64)
    requires
        config.monitord.daemon ==> config.monitord.daemon_stats_refresh_secs * 1000 <= u64::MAX,
    ensures
        r == if config.monitord.daemon {
            config.monitord.daemon_stats_refresh_secs * 1000
        } else {
            0
        },
{
    if config.monitord.daemon {
        config.monitord.daemon_stats_refresh_secs * 1000
    } else {
        0
    }
}

/// What follows a run.
#[derive(Clone, Copy, Debug, PartialEq, Eq, Structural)]
pub enum CycleEnd {
    /// Stop; hand the shared D-Bus connection back to the caller unless a
    /// collector failed, so that a failed run is never reused.
    Finish { return_connection: bool },
    /// Sleep for the rest of the interval, then run again; a run with a
    /// failure drops the shared D-Bus connection so the next one reconnects.
    Sleep { ms: u64, reset_connection: bool },
}

/// The end of a run that took `elapsed_ms` of an interval of `interval_ms`.
pub fn end_of_cycle(daemon: bool, had_error: bool, interval_ms: u64, elapsed_ms: u64) -> (r: CycleEnd)
    requires
        daemon ==> elapsed_ms <= interval_ms,
    ensures
        r == if daemon {
            CycleEnd::Sleep { ms: (interval_ms - elapsed_ms) as u64, reset_connection: had_error }
        } else {
            CycleEnd::Finish { return_connection: !had_error }
        },
{
    if !daemon {
        return CycleEnd::Finish { return_connection: !had_error };
    }
    CycleEnd::Sleep { ms: interval_ms - elapsed_ms, reset_connection: had_error }
}

} // verus!
