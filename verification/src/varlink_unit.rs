//! Per-unit detail from the `io.systemd.Unit` varlink API (systemd v261 and
//! later): the mapping of one unit's `List` reply onto the stats that the
//! D-Bus path fills from unit properties.
//!
//! systemd omits a field that sits at its default rather than sending a zero,
//! so every mapping here restates the default the D-Bus property would have
//! returned.
use vstd::prelude::*;

use crate::cgroup::CgroupStats;
use crate::timer::TimerStats;
use crate::units::ServiceStats;
use crate::varlink::unit::{
    CGroupRuntime, ExecContext, ListOutput, ServiceContext, ServiceRuntime, TimerContext,
    TimerRuntime, Timestamp, UnitRuntime,
};

verus! {

/// What systemd reports over D-Bus for a counter that is not set (`[not set]`
/// or `infinity` in `systemctl show`); over varlink the field is omitted.
pub const UNSET: u64 = 0xffff_ffff_ffff_ffff;

pub open spec fn u64_or(o: Option<u64>, d: u64) -> u64 {
    match o {
        Some(v) => v,
        None => d,
    }
}

pub open spec fn bool_or_false(o: Option<bool>) -> bool {
    match o {
        Some(v) => v,
        None => false,
    }
}

/// The realtime clock of a timestamp, 0 when either is absent.
pub open spec fn realtime_of(ts: Option<Timestamp>) -> u64 {
    match ts {
        Some(t) => u64_or(t.realtime, 0),
        None => 0,
    }
}

/// The monotonic clock of a timestamp, 0 when either is absent.
pub open spec fn monotonic_of(ts: Option<Timestamp>) -> u64 {
    match ts {
        Some(t) => u64_or(t.monotonic, 0),
        None => 0,
    }
}

/// cgroupfs first, the reply as fallback, `UNSET` when neither has data.
pub open spec fn fs_or_reply(fs: Option<u64>, reply: Option<u64>) -> u64 {
    match fs {
        Some(v) => v,
        None => u64_or(reply, UNSET),
    }
}

pub open spec fn service_context_of(o: ListOutput) -> Option<ServiceContext> {
    match o.context {
        Some(c) => c.service,
        None => None,
    }
}

pub open spec fn exec_context_of(o: ListOutput) -> Option<ExecContext> {
    match o.context {
        Some(c) => c.exec_context,
        None => None,
    }
}

pub open spec fn timer_context_of(o: ListOutput) -> Option<TimerContext> {
    match o.context {
        Some(c) => c.timer,
        None => None,
    }
}

pub open spec fn cgroup_reply_of(o: ListOutput) -> Option<CGroupRuntime> {
    match o.runtime {
        Some(r) => r.cgroup,
        None => None,
    }
}

pub open spec fn service_runtime_of(o: ListOutput) -> Option<ServiceRuntime> {
    match o.runtime {
        Some(r) => r.service,
        None => None,
    }
}

pub open spec fn timer_runtime_of(o: ListOutput) -> Option<TimerRuntime> {
    match o.runtime {
        Some(r) => r.timer,
        None => None,
    }
}

/// One timestamp of the runtime section, picked by `pick`.
pub open spec fn runtime_stamp(o: ListOutput, pick: spec_fn(UnitRuntime) -> Option<Timestamp>) -> Option<Timestamp> {
    match o.runtime {
        Some(r) => pick(r),
        None => None,
    }
}

/// One accounting field of the reply's cgroup section, picked by `pick`.
pub open spec fn cgroup_reply_field(o: ListOutput, pick: spec_fn(CGroupRuntime) -> Option<u64>) -> Option<u64> {
    match cgroup_reply_of(o) {
        Some(c) => pick(c),
        None => None,
    }
}

/// The service type named in the reply, if any.
pub open spec fn service_type_of(o: ListOutput) -> Option<Seq<char>> {
    match service_context_of(o) {
        Some(s) => match s.service_type {
            Some(t) => Some(t@),
            None => None,
        },
        None => None,
    }
}

/// The unit a timer's reply names as its target, if any.
pub open spec fn timer_unit_of(o: ListOutput) -> Option<Seq<char>> {
    match timer_context_of(o) {
        Some(t) => match t.unit {
            Some(u) => Some(u@),
            None => None,
        },
        None => None,
    }
}

/// The service stats of a reply and the cgroupfs readings of its unit.
pub open spec fn service_stats_of(o: ListOutput, cgroup: CgroupStats) -> ServiceStats {
    ServiceStats {
        active_enter_timestamp: realtime_of(runtime_stamp(o, |r: UnitRuntime| r.active_enter_timestamp)),
        active_exit_timestamp: realtime_of(runtime_stamp(o, |r: UnitRuntime| r.active_exit_timestamp)),
        cpuusage_nsec: fs_or_reply(cgroup.cpu_usage_nsec, cgroup_reply_field(o, |c: CGroupRuntime| c.cpu_usage_nsec)),
        inactive_exit_timestamp: realtime_of(runtime_stamp(o, |r: UnitRuntime| r.inactive_exit_timestamp)),
        ioread_bytes: fs_or_reply(cgroup.io_read_bytes, cgroup_reply_field(o, |c: CGroupRuntime| c.io_read_bytes)),
        ioread_operations: fs_or_reply(cgroup.io_read_operations, cgroup_reply_field(o, |c: CGroupRuntime| c.io_read_operations)),
        memory_available: fs_or_reply(cgroup.memory_available, cgroup_reply_field(o, |c: CGroupRuntime| c.memory_available)),
        memory_current: fs_or_reply(cgroup.memory_current, cgroup_reply_field(o, |c: CGroupRuntime| c.memory_current)),
        nrestarts: match service_runtime_of(o) {
            Some(s) => match s.n_restarts {
                Some(n) => n,
                None => 0,
            },
            None => 0,
        },
        processes: cgroup.processes,
        restart_usec: match service_context_of(o) {
            Some(s) => u64_or(s.restart_usec, 0),
            None => 0,
        },
        state_change_timestamp: realtime_of(runtime_stamp(o, |r: UnitRuntime| r.state_change_timestamp)),
        status_errno: match service_runtime_of(o) {
            Some(s) => match s.status_errno {
                Some(e) => e,
                None => 0,
            },
            None => 0,
        },
        tasks_current: fs_or_reply(cgroup.tasks_current, cgroup_reply_field(o, |c: CGroupRuntime| c.tasks_current)),
        timeout_clean_usec: match exec_context_of(o) {
            Some(e) => u64_or(e.timeout_clean_usec, UNSET),
            None => UNSET,
        },
        watchdog_usec: match service_context_of(o) {
            Some(s) => u64_or(s.watchdog_usec, 0),
            None => 0,
        },
    }
}

/// The timer stats of a timer's reply and, when it could be resolved, the
/// reply of the unit the timer triggers.
pub open spec fn timer_stats_of(o: ListOutput, triggered: Option<ListOutput>) -> TimerStats {
    let context = timer_context_of(o);
    let runtime = timer_runtime_of(o);
    let last = match runtime {
        Some(r) => r.last_trigger_usec,
        None => None,
    };
    let changed = match triggered {
        Some(t) => runtime_stamp(t, |r: UnitRuntime| r.state_change_timestamp),
        None => None,
    };
    TimerStats {
        accuracy_usec: match context {
            Some(c) => u64_or(c.accuracy_usec, 0),
            None => 0,
        },
        fixed_random_delay: match context {
            Some(c) => bool_or_false(c.fixed_random_delay),
            None => false,
        },
        last_trigger_usec: realtime_of(last),
        last_trigger_usec_monotonic: monotonic_of(last),
        next_elapse_usec_monotonic: match runtime {
            Some(r) => u64_or(r.next_elapse_usec_monotonic, 0),
            None => 0,
        },
        next_elapse_usec_realtime: match runtime {
            Some(r) => u64_or(r.next_elapse_usec_realtime, 0),
            None => 0,
        },
        persistent: match context {
            Some(c) => bool_or_false(c.persistent),
            None => false,
        },
        randomized_delay_usec: match context {
            Some(c) => u64_or(c.randomized_delay_usec, 0),
            None => 0,
        },
        remain_after_elapse: match context {
            Some(c) => bool_or_false(c.remain_after_elapse),
            None => false,
        },
        service_unit_last_state_change_usec: realtime_of(changed),
        service_unit_last_state_change_usec_monotonic: monotonic_of(changed),
    }
}

fn opt_or(o: Option<u64>, d: u64) -> (r: u64)
    ensures
        r == u64_or(o, d),
{
    match o {
        Some(v) => v,
        None => d,
    }
}

fn opt_bool(o: Option<bool>) -> (r: bool)
    ensures
        r == bool_or_false(o),
{
    match o {
        Some(v) => v,
        None => false,
    }
}

fn realtime(ts: Option<Timestamp>) -> (r: u64)
    ensures
        r == realtime_of(ts),
{
    match ts {
        Some(t) => opt_or(t.realtime, 0),
        None => 0,
    }
}

fn monotonic(ts: Option<Timestamp>) -> (r: u64)
    ensures
        r == monotonic_of(ts),
{
    match ts {
        Some(t) => opt_or(t.monotonic, 0),
        None => 0,
    }
}

fn fs_then_reply(fs: Option<u64>, reply: Option<u64>) -> (r: u64)
    ensures
        r == fs_or_reply(fs, reply),
{
    match fs {
        Some(v) => v,
        None => opt_or(reply, UNSET),
    }
}

/// Whether a unit is a oneshot service: its reply names the service type
/// `oneshot`. A reply without a service section is no oneshot service.
pub fn is_oneshot(output: &ListOutput) -> (r: bool)
    ensures
        r == (service_type_of(*output) == Some("oneshot"@)),
{
    match &output.context {
        Some(context) => match &context.service {
            Some(service) => match &service.service_type {
                Some(t) => crate::text::str_eq(t.as_str(), "oneshot"),
                None => false,
            },
            None => false,
        },
        None => false,
    }
}

/// Map a `List` reply onto `ServiceStats`.
///
/// The seven cgroup-derived fields come from `cgroup`, read from cgroupfs:
/// the reply carries them only when the matching accounting option is on.
/// A field with no cgroupfs data falls back to the reply, and to `UNSET`
/// when the reply omits it too.
pub fn map_service_stats(output: &ListOutput, cgroup: &CgroupStats) -> (r: ServiceStats)
    ensures
        r == service_stats_of(*output, *cgroup),
{
    let mut ae: u64 = 0;
    let mut ax: u64 = 0;
    let mut ie: u64 = 0;
    let mut sc: u64 = 0;
    let mut cpu: Option<u64> = None;
    let mut memc: Option<u64> = None;
    let mut mema: Option<u64> = None;
    let mut tasks: Option<u64> = None;
    let mut iob: Option<u64> = None;
    let mut ioo: Option<u64> = None;
    let mut nrestarts: u32 = 0;
    let mut errno: i32 = 0;
    match &output.runtime {
        Some(rt) => {
            ae = realtime(rt.active_enter_timestamp);
            ax = realtime(rt.active_exit_timestamp);
            ie = realtime(rt.inactive_exit_timestamp);
            sc = realtime(rt.state_change_timestamp);
            match &rt.cgroup {
                Some(c) => {
                    cpu = c.cpu_usage_nsec;
                    memc = c.memory_current;
                    mema = c.memory_available;
                    tasks = c.tasks_current;
                    iob = c.io_read_bytes;
                    ioo = c.io_read_operations;
                },
                None => {},
            }
            match &rt.service {
                Some(s) => {
                    nrestarts = match s.n_restarts {
                        Some(n) => n,
                        None => 0,
                    };
                    errno = match s.status_errno {
                        Some(e) => e,
                        None => 0,
                    };
                },
                None => {},
            }
        },
        None => {},
    }
    let mut restart: u64 = 0;
    let mut watchdog: u64 = 0;
    let mut clean: u64 = UNSET;
    match &output.context {
        Some(context) => {
            match &context.service {
                Some(s) => {
                    restart = opt_or(s.restart_usec, 0);
                    watchdog = opt_or(s.watchdog_usec, 0);
                },
                None => {},
            }
            match &context.exec_context {
                Some(e) => {
                    clean = opt_or(e.timeout_clean_usec, UNSET);
                },
                None => {},
            }
        },
        None => {},
    }
    ServiceStats {
        active_enter_timestamp: ae,
        active_exit_timestamp: ax,
        cpuusage_nsec: fs_then_reply(cgroup.cpu_usage_nsec, cpu),
        inactive_exit_timestamp: ie,
        ioread_bytes: fs_then_reply(cgroup.io_read_bytes, iob),
        ioread_operations: fs_then_reply(cgroup.io_read_operations, ioo),
        memory_available: fs_then_reply(cgroup.memory_available, mema),
        memory_current: fs_then_reply(cgroup.memory_current, memc),
        nrestarts,
        processes: cgroup.processes,
        restart_usec: restart,
        state_change_timestamp: sc,
        status_errno: errno,
        tasks_current: fs_then_reply(cgroup.tasks_current, tasks),
        timeout_clean_usec: clean,
        watchdog_usec: watchdog,
    }
}

/// The unit a timer triggers, e.g. "logrotate.service" for "logrotate.timer".
pub fn timer_triggered_unit(output: &ListOutput) -> (r: Option<&str>)
    ensures
        match r {
            Some(u) => timer_unit_of(*output) == Some(u@),
            None => timer_unit_of(*output) is None,
        },
{
    match &output.context {
        Some(context) => match &context.timer {
            Some(timer) => match &timer.unit {
                Some(u) => Some(u.as_str()),
                None => None,
            },
            None => None,
        },
        None => None,
    }
}

/// Map a timer's `List` reply onto `TimerStats`.
///
/// `triggered` is the reply for the unit the timer starts, whose state change
/// timestamps belong to that unit rather than to the timer; `None` when it
/// could not be resolved, which leaves those two fields at 0 as the D-Bus
/// path does for a timer that names no unit.
pub fn map_timer_stats(output: &ListOutput, triggered: Option<&ListOutput>) -> (r: TimerStats)
    ensures
        r == timer_stats_of(
            *output,
            match triggered {
                Some(t) => Some(*t),
                None => None,
            },
        ),
{
    let mut stats = TimerStats::default();
    match &output.context {
        Some(context) => match &context.timer {
            Some(c) => {
                stats.accuracy_usec = opt_or(c.accuracy_usec, 0);
                stats.fixed_random_delay = opt_bool(c.fixed_random_delay);
                stats.persistent = opt_bool(c.persistent);
                stats.randomized_delay_usec = opt_or(c.randomized_delay_usec, 0);
                stats.remain_after_elapse = opt_bool(c.remain_after_elapse);
            },
            None => {},
        },
        None => {},
    }
    match &output.runtime {
        Some(rt) => match &rt.timer {
            Some(t) => {
                stats.last_trigger_usec = realtime(t.last_trigger_usec);
                stats.last_trigger_usec_monotonic = monotonic(t.last_trigger_usec);
                stats.next_elapse_usec_monotonic = opt_or(t.next_elapse_usec_monotonic, 0);
                stats.next_elapse_usec_realtime = opt_or(t.next_elapse_usec_realtime, 0);
            },
            None => {},
        },
        None => {},
    }
    match triggered {
        Some(t) => match &t.runtime {
            Some(rt) => {
                stats.service_unit_last_state_change_usec = realtime(rt.state_change_timestamp);
                stats.service_unit_last_state_change_usec_monotonic = monotonic(
                    rt.state_change_timestamp,
                );
            },
            None => {},
        },
        None => {},
    }
    stats
}

} // verus!
