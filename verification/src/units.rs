//! Unit statistics: counts of units by type and state, per-service metrics
//! and per-unit states.
use vstd::prelude::*;

use crate::strmap::StrMap;
use crate::timer::TimerStats;
use crate::text::{after_last, replace_char, str_eq};
use crate::unit_constants::{
    active_state_of_name, is_unit_unhealthy, load_state_of_name, unit_unhealthy,
    SystemdUnitActiveState, SystemdUnitLoadState,
};

verus! {

/// Per-service metrics from the `org.freedesktop.systemd1.Service` and `Unit`
/// D-Bus interfaces (or their varlink equivalents).
#[derive(Clone, Copy, Debug, PartialEq, Eq, Structural)]
pub struct ServiceStats {
    /// Realtime timestamp (usec since epoch) of the latest entry into active.
    pub active_enter_timestamp: u64,
    /// Realtime timestamp (usec since epoch) of the latest exit from active.
    pub active_exit_timestamp: u64,
    /// CPU time consumed by the service's cgroup in nanoseconds.
    pub cpuusage_nsec: u64,
    /// Realtime timestamp (usec since epoch) of the latest exit from inactive.
    pub inactive_exit_timestamp: u64,
    /// Bytes read from block I/O by the service's cgroup.
    pub ioread_bytes: u64,
    /// Block I/O read operations by the service's cgroup.
    pub ioread_operations: u64,
    /// Memory available to the service, in bytes.
    pub memory_available: u64,
    /// Memory used by the service's cgroup, in bytes.
    pub memory_current: u64,
    /// Number of automatic restarts.
    pub nrestarts: u32,
    /// Number of processes in the service's cgroup.
    pub processes: u32,
    /// Configured restart delay in microseconds.
    pub restart_usec: u64,
    /// Realtime timestamp (usec since epoch) of the latest state change.
    pub state_change_timestamp: u64,
    /// errno-style exit status of the main process (0 = success).
    pub status_errno: i32,
    /// Number of tasks (threads) in the service's cgroup.
    pub tasks_current: u64,
    /// Timeout for cleaning up after the service exits, in microseconds.
    pub timeout_clean_usec: u64,
    /// Watchdog timeout in microseconds.
    pub watchdog_usec: u64,
}

/// A unit's active and load state with the health computed from them.
#[derive(Clone, Copy, Debug, PartialEq, Eq, Structural)]
pub struct UnitStates {
    pub active_state: SystemdUnitActiveState,
    pub load_state: SystemdUnitLoadState,
    /// True when a loaded unit is not active, or the load state is neither
    /// loaded nor masked.
    pub unhealthy: bool,
    /// Microseconds since the latest state change, when tracked.
    pub time_in_state_usecs: Option<u64>,
}


impl Default for ServiceStats {
    fn default() -> (r: Self)
        ensures
            r == no_service_stats(),
    {
        ServiceStats {
            active_enter_timestamp: 0,
            active_exit_timestamp: 0,
            cpuusage_nsec: 0,
            inactive_exit_timestamp: 0,
            ioread_bytes: 0,
            ioread_operations: 0,
            memory_available: 0,
            memory_current: 0,
            nrestarts: 0,
            processes: 0,
            restart_usec: 0,
            state_change_timestamp: 0,
            status_errno: 0,
            tasks_current: 0,
            timeout_clean_usec: 0,
            watchdog_usec: 0,
        }
    }
}

/// Service stats with every field zero.
pub open spec fn no_service_stats() -> ServiceStats {
    ServiceStats {
        active_enter_timestamp: 0,
        active_exit_timestamp: 0,
        cpuusage_nsec: 0,
        inactive_exit_timestamp: 0,
        ioread_bytes: 0,
        ioread_operations: 0,
        memory_available: 0,
        memory_current: 0,
        nrestarts: 0,
        processes: 0,
        restart_usec: 0,
        state_change_timestamp: 0,
        status_errno: 0,
        tasks_current: 0,
        timeout_clean_usec: 0,
        watchdog_usec: 0,
    }
}

/// A unit's states before anything is known of it.
pub open spec fn no_unit_states() -> UnitStates {
    UnitStates {
        active_state: SystemdUnitActiveState::unknown,
        load_state: SystemdUnitLoadState::unknown,
        unhealthy: false,
        time_in_state_usecs: None,
    }
}

impl Default for UnitStates {
    fn default() -> (r: Self)
        ensures
            r == no_unit_states(),
    {
        UnitStates {
            active_state: SystemdUnitActiveState::unknown,
            load_state: SystemdUnitLoadState::unknown,
            unhealthy: false,
            time_in_state_usecs: None,
        }
    }
}

/// Unit file counts of one scope (root or user), by unit type.
#[derive(Debug)]
pub struct UnitFilesScope {
    /// Generated unit files by type, e.g. "mount" => 5.
    pub generated: StrMap<u64>,
    /// Transient unit files by type, e.g. "scope" => 6.
    pub transient: StrMap<u64>,
}

impl Default for UnitFilesScope {
    fn default() -> (r: Self)
        ensures
            r.generated@ == Map::<Seq<char>, u64>::empty(),
            r.transient@ == Map::<Seq<char>, u64>::empty(),
    {
        UnitFilesScope { generated: StrMap::new(), transient: StrMap::new() }
    }
}

/// Unit file counts for the root and user scopes.
#[derive(Debug)]
pub struct UnitFilesStats {
    pub root: UnitFilesScope,
    pub user: UnitFilesScope,
}

impl Default for UnitFilesStats {
    fn default() -> (r: Self)
        ensures
            r.root.generated@ == Map::<Seq<char>, u64>::empty(),
            r.root.transient@ == Map::<Seq<char>, u64>::empty(),
            r.user.generated@ == Map::<Seq<char>, u64>::empty(),
            r.user.transient@ == Map::<Seq<char>, u64>::empty(),
    {
        UnitFilesStats { root: UnitFilesScope::default(), user: UnitFilesScope::default() }
    }
}

/// Unit statistics: counts by type, load state and active state, queued
/// jobs, and the per-service, per-timer and per-unit details.
#[derive(Debug)]
pub struct SystemdUnitStats {
    pub activating_units: u64,
    pub active_units: u64,
    pub automount_units: u64,
    pub device_units: u64,
    pub failed_units: u64,
    pub inactive_units: u64,
    pub jobs_queued: u64,
    pub loaded_units: u64,
    pub masked_units: u64,
    pub mount_units: u64,
    pub not_found_units: u64,
    pub path_units: u64,
    pub scope_units: u64,
    pub service_units: u64,
    pub slice_units: u64,
    pub socket_units: u64,
    pub target_units: u64,
    pub timer_units: u64,
    pub timer_persistent_units: u64,
    pub timer_remain_after_elapse: u64,
    pub total_units: u64,
    pub unit_files: UnitFilesStats,
    /// Per-service metrics by unit name, e.g. "sshd.service".
    pub service_stats: StrMap<ServiceStats>,
    /// Per-timer metrics by unit name, e.g. "logrotate.timer".
    pub timer_stats: StrMap<TimerStats>,
    /// Per-unit states by unit name.
    pub unit_states: StrMap<UnitStates>,
}

/// The counters of the unit statistics.
#[derive(Clone, Copy, Debug, PartialEq, Eq, Structural)]
pub struct UnitCounters {
    pub activating_units: u64,
    pub active_units: u64,
    pub automount_units: u64,
    pub device_units: u64,
    pub failed_units: u64,
    pub inactive_units: u64,
    pub jobs_queued: u64,
    pub loaded_units: u64,
    pub masked_units: u64,
    pub mount_units: u64,
    pub not_found_units: u64,
    pub path_units: u64,
    pub scope_units: u64,
    pub service_units: u64,
    pub slice_units: u64,
    pub socket_units: u64,
    pub target_units: u64,
    pub timer_units: u64,
    pub timer_persistent_units: u64,
    pub timer_remain_after_elapse: u64,
    pub total_units: u64,
}

pub open spec fn zero_counters() -> UnitCounters {
    UnitCounters {
        activating_units: 0,
        active_units: 0,
        automount_units: 0,
        device_units: 0,
        failed_units: 0,
        inactive_units: 0,
        jobs_queued: 0,
        loaded_units: 0,
        masked_units: 0,
        mount_units: 0,
        not_found_units: 0,
        path_units: 0,
        scope_units: 0,
        service_units: 0,
        slice_units: 0,
        socket_units: 0,
        target_units: 0,
        timer_units: 0,
        timer_persistent_units: 0,
        timer_remain_after_elapse: 0,
        total_units: 0,
    }
}

/// The counters of `s`.
pub open spec fn counters_of(s: SystemdUnitStats) -> UnitCounters {
    UnitCounters {
        activating_units: s.activating_units,
        active_units: s.active_units,
        automount_units: s.automount_units,
        device_units: s.device_units,
        failed_units: s.failed_units,
        inactive_units: s.inactive_units,
        jobs_queued: s.jobs_queued,
        loaded_units: s.loaded_units,
        masked_units: s.masked_units,
        mount_units: s.mount_units,
        not_found_units: s.not_found_units,
        path_units: s.path_units,
        scope_units: s.scope_units,
        service_units: s.service_units,
        slice_units: s.slice_units,
        socket_units: s.socket_units,
        target_units: s.target_units,
        timer_units: s.timer_units,
        timer_persistent_units: s.timer_persistent_units,
        timer_remain_after_elapse: s.timer_remain_after_elapse,
        total_units: s.total_units,
    }
}

impl Default for SystemdUnitStats {
    fn default() -> (r: Self)
        ensures
            counters_of(r) == zero_counters(),
            r.service_stats@ == Map::<Seq<char>, ServiceStats>::empty(),
            r.timer_stats@ == Map::<Seq<char>, TimerStats>::empty(),
            r.unit_states@ == Map::<Seq<char>, UnitStates>::empty(),
            r.unit_files.root.generated@ == Map::<Seq<char>, u64>::empty(),
            r.unit_files.root.transient@ == Map::<Seq<char>, u64>::empty(),
            r.unit_files.user.generated@ == Map::<Seq<char>, u64>::empty(),
            r.unit_files.user.transient@ == Map::<Seq<char>, u64>::empty(),
    {
        SystemdUnitStats {
            activating_units: 0,
            active_units: 0,
            automount_units: 0,
            device_units: 0,
            failed_units: 0,
            inactive_units: 0,
            jobs_queued: 0,
            loaded_units: 0,
            masked_units: 0,
            mount_units: 0,
            not_found_units: 0,
            path_units: 0,
            scope_units: 0,
            service_units: 0,
            slice_units: 0,
            socket_units: 0,
            target_units: 0,
            timer_units: 0,
            timer_persistent_units: 0,
            timer_remain_after_elapse: 0,
            total_units: 0,
            unit_files: UnitFilesStats::default(),
            service_stats: StrMap::new(),
            timer_stats: StrMap::new(),
            unit_states: StrMap::new(),
        }
    }
}

impl UnitCounters {
    /// The counters of a set of unit statistics.
    pub fn from_stats(s: &SystemdUnitStats) -> (r: UnitCounters)
        ensures
            r == counters_of(*s),
    {
        UnitCounters {
            activating_units: s.activating_units,
            active_units: s.active_units,
            automount_units: s.automount_units,
            device_units: s.device_units,
            failed_units: s.failed_units,
            inactive_units: s.inactive_units,
            jobs_queued: s.jobs_queued,
            loaded_units: s.loaded_units,
            masked_units: s.masked_units,
            mount_units: s.mount_units,
            not_found_units: s.not_found_units,
            path_units: s.path_units,
            scope_units: s.scope_units,
            service_units: s.service_units,
            slice_units: s.slice_units,
            socket_units: s.socket_units,
            target_units: s.target_units,
            timer_units: s.timer_units,
            timer_persistent_units: s.timer_persistent_units,
            timer_remain_after_elapse: s.timer_remain_after_elapse,
            total_units: s.total_units,
        }
    }
}


/// A unit as the manager's `ListUnits` reports it.
#[derive(Clone, Debug, PartialEq, Eq)]
pub struct ListedUnit {
    /// The unit's name, e.g. "sshd.service".
    pub name: String,
    pub description: String,
    /// Whether the unit file loaded: "loaded", "masked", "not-found", ...
    pub load_state: String,
    /// Whether the unit runs: "active", "inactive", "failed", ...
    pub active_state: String,
    pub sub_state: String,
    pub follow_unit: String,
    /// The unit's D-Bus object path.
    pub unit_object_path: String,
    /// The queued job's id, 0 when there is none.
    pub job_id: u32,
    pub job_type: String,
    pub job_object_path: String,
}

/// Every counter that `parse_unit` may raise is below its largest value.
pub open spec fn unit_counts_have_room(c: UnitCounters) -> bool {
    &&& c.automount_units < u64::MAX
    &&& c.device_units < u64::MAX
    &&& c.mount_units < u64::MAX
    &&& c.path_units < u64::MAX
    &&& c.scope_units < u64::MAX
    &&& c.service_units < u64::MAX
    &&& c.slice_units < u64::MAX
    &&& c.socket_units < u64::MAX
    &&& c.target_units < u64::MAX
    &&& c.timer_units < u64::MAX
    &&& c.loaded_units < u64::MAX
    &&& c.masked_units < u64::MAX
    &&& c.not_found_units < u64::MAX
    &&& c.activating_units < u64::MAX
    &&& c.active_units < u64::MAX
    &&& c.failed_units < u64::MAX
    &&& c.inactive_units < u64::MAX
    &&& c.jobs_queued < u64::MAX
}

/// The counters with the count of unit type `t` raised by one.
pub open spec fn count_type(c: UnitCounters, t: Seq<char>) -> UnitCounters {
    if t == "automount"@ {
        UnitCounters { automount_units: (c.automount_units + 1) as u64, ..c }
    } else if t == "device"@ {
        UnitCounters { device_units: (c.device_units + 1) as u64, ..c }
    } else if t == "mount"@ {
        UnitCounters { mount_units: (c.mount_units + 1) as u64, ..c }
    } else if t == "path"@ {
        UnitCounters { path_units: (c.path_units + 1) as u64, ..c }
    } else if t == "scope"@ {
        UnitCounters { scope_units: (c.scope_units + 1) as u64, ..c }
    } else if t == "service"@ {
        UnitCounters { service_units: (c.service_units + 1) as u64, ..c }
    } else if t == "slice"@ {
        UnitCounters { slice_units: (c.slice_units + 1) as u64, ..c }
    } else if t == "socket"@ {
        UnitCounters { socket_units: (c.socket_units + 1) as u64, ..c }
    } else if t == "target"@ {
        UnitCounters { target_units: (c.target_units + 1) as u64, ..c }
    } else if t == "timer"@ {
        UnitCounters { timer_units: (c.timer_units + 1) as u64, ..c }
    } else {
        c
    }
}

/// The counters with the count of load state `l` raised by one.
pub open spec fn count_load(c: UnitCounters, l: Seq<char>) -> UnitCounters {
    if l == "loaded"@ {
        UnitCounters { loaded_units: (c.loaded_units + 1) as u64, ..c }
    } else if l == "masked"@ {
        UnitCounters { masked_units: (c.masked_units + 1) as u64, ..c }
    } else if l == "not-found"@ {
        UnitCounters { not_found_units: (c.not_found_units + 1) as u64, ..c }
    } else {
        c
    }
}

/// The counters with the count of active state `a` raised by one.
pub open spec fn count_active(c: UnitCounters, a: Seq<char>) -> UnitCounters {
    if a == "activating"@ {
        UnitCounters { activating_units: (c.activating_units + 1) as u64, ..c }
    } else if a == "active"@ {
        UnitCounters { active_units: (c.active_units + 1) as u64, ..c }
    } else if a == "failed"@ {
        UnitCounters { failed_units: (c.failed_units + 1) as u64, ..c }
    } else if a == "inactive"@ {
        UnitCounters { inactive_units: (c.inactive_units + 1) as u64, ..c }
    } else {
        c
    }
}

/// How one listed unit changes the counters: its type (the text after the
/// last `.` of its name), its load state, its active state and whether a
/// job is queued for it each add one to their count.
pub open spec fn counters_after_unit(c: UnitCounters, u: ListedUnit) -> UnitCounters {
    let c1 = count_type(c, after_last(u.name@, '.'));
    let c2 = count_load(c1, u.load_state@);
    let c3 = count_active(c2, u.active_state@);
    if u.job_id != 0 {
        UnitCounters { jobs_queued: (c3.jobs_queued + 1) as u64, ..c3 }
    } else {
        c3
    }
}

/// The ten unit types that are counted, as they end a unit's name.
pub open spec fn unit_type_names() -> Seq<Seq<char>> {
    seq![
        "automount"@,
        "device"@,
        "mount"@,
        "path"@,
        "scope"@,
        "service"@,
        "slice"@,
        "socket"@,
        "target"@,
        "timer"@,
    ]
}

/// The count of the `k`-th of `unit_type_names`.
pub open spec fn unit_type_count(c: UnitCounters, k: int) -> u64 {
    if k == 0 {
        c.automount_units
    } else if k == 1 {
        c.device_units
    } else if k == 2 {
        c.mount_units
    } else if k == 3 {
        c.path_units
    } else if k == 4 {
        c.scope_units
    } else if k == 5 {
        c.service_units
    } else if k == 6 {
        c.slice_units
    } else if k == 7 {
        c.socket_units
    } else if k == 8 {
        c.target_units
    } else {
        c.timer_units
    }
}

/// The load states that are counted.
pub open spec fn load_state_names() -> Seq<Seq<char>> {
    seq!["loaded"@, "masked"@, "not-found"@]
}

/// The count of the `k`-th of `load_state_names`.
pub open spec fn load_count(c: UnitCounters, k: int) -> u64 {
    if k == 0 {
        c.loaded_units
    } else if k == 1 {
        c.masked_units
    } else {
        c.not_found_units
    }
}

/// The active states that are counted.
pub open spec fn active_state_names() -> Seq<Seq<char>> {
    seq!["activating"@, "active"@, "failed"@, "inactive"@]
}

/// The count of the `k`-th of `active_state_names`.
pub open spec fn active_count(c: UnitCounters, k: int) -> u64 {
    if k == 0 {
        c.activating_units
    } else if k == 1 {
        c.active_units
    } else if k == 2 {
        c.failed_units
    } else {
        c.inactive_units
    }
}

proof fn lemma_unit_type_names_have_no_dot(k: int)
    requires
        0 <= k < 10,
    ensures
        !unit_type_names()[k].contains('.'),
{
    reveal_strlit("automount");
    reveal_strlit("device");
    reveal_strlit("mount");
    reveal_strlit("path");
    reveal_strlit("scope");
    reveal_strlit("service");
    reveal_strlit("slice");
    reveal_strlit("socket");
    reveal_strlit("target");
    reveal_strlit("timer");
    let t = unit_type_names()[k];
    assert forall|i: int| 0 <= i < t.len() implies t[i] != '.' by {
        if k == 0 { assert(t == "automount"@); }
        else if k == 1 { assert(t == "device"@); }
        else if k == 2 { assert(t == "mount"@); }
        else if k == 3 { assert(t == "path"@); }
        else if k == 4 { assert(t == "scope"@); }
        else if k == 5 { assert(t == "service"@); }
        else if k == 6 { assert(t == "slice"@); }
        else if k == 7 { assert(t == "socket"@); }
        else if k == 8 { assert(t == "target"@); }
        else { assert(t == "timer"@); }
    }
}

proof fn lemma_type_counts_from_type(c: UnitCounters, u: ListedUnit)
    ensures
        forall|j: int| #[trigger] unit_type_count(counters_after_unit(c, u), j) == unit_type_count(
            count_type(c, after_last(u.name@, '.')),
            j,
        ),
{
}

proof fn lemma_count_type_at(c: UnitCounters, k: int)
    requires
        0 <= k < 10,
        unit_counts_have_room(c),
    ensures
        forall|j: int| 0 <= j < 10 ==> #[trigger] unit_type_count(count_type(c, unit_type_names()[k]), j) == if j == k {
            unit_type_count(c, k) + 1
        } else {
            unit_type_count(c, j) as int
        },
{
    reveal_strlit("automount");
    reveal_strlit("device");
    reveal_strlit("mount");
    reveal_strlit("path");
    reveal_strlit("scope");
    reveal_strlit("service");
    reveal_strlit("slice");
    reveal_strlit("socket");
    reveal_strlit("target");
    reveal_strlit("timer");
    if k == 0 {
        assert(unit_type_names()[k] == "automount"@);
        let r = count_type(c, "automount"@);
        assert forall|j: int| 0 <= j < 10 implies #[trigger] unit_type_count(r, j) == if j == k {
            unit_type_count(c, k) + 1
        } else {
            unit_type_count(c, j) as int
        } by {
        }
    } else if k == 1 {
        assert(unit_type_names()[k] == "device"@);
        let r = count_type(c, "device"@);
        assert forall|j: int| 0 <= j < 10 implies #[trigger] unit_type_count(r, j) == if j == k {
            unit_type_count(c, k) + 1
        } else {
            unit_type_count(c, j) as int
        } by {
            assert("device"@[0] != "socket"@[0]);
            assert("device"@[0] != "target"@[0]);
        }
    } else if k == 2 {
        assert(unit_type_names()[k] == "mount"@);
        let r = count_type(c, "mount"@);
        assert forall|j: int| 0 <= j < 10 implies #[trigger] unit_type_count(r, j) == if j == k {
            unit_type_count(c, k) + 1
        } else {
            unit_type_count(c, j) as int
        } by {
            assert("mount"@[0] != "scope"@[0]);
            assert("mount"@[0] != "slice"@[0]);
            assert("mount"@[0] != "timer"@[0]);
        }
    } else if k == 3 {
        assert(unit_type_names()[k] == "path"@);
        let r = count_type(c, "path"@);
        assert forall|j: int| 0 <= j < 10 implies #[trigger] unit_type_count(r, j) == if j == k {
            unit_type_count(c, k) + 1
        } else {
            unit_type_count(c, j) as int
        } by {
        }
    } else if k == 4 {
        assert(unit_type_names()[k] == "scope"@);
        let r = count_type(c, "scope"@);
        assert forall|j: int| 0 <= j < 10 implies #[trigger] unit_type_count(r, j) == if j == k {
            unit_type_count(c, k) + 1
        } else {
            unit_type_count(c, j) as int
        } by {
            assert("scope"@[0] != "mount"@[0]);
            assert("scope"@[1] != "slice"@[1]);
            assert("scope"@[0] != "timer"@[0]);
        }
    } else if k == 5 {
        assert(unit_type_names()[k] == "service"@);
        let r = count_type(c, "service"@);
        assert forall|j: int| 0 <= j < 10 implies #[trigger] unit_type_count(r, j) == if j == k {
            unit_type_count(c, k) + 1
        } else {
            unit_type_count(c, j) as int
        } by {
        }
    } else if k == 6 {
        assert(unit_type_names()[k] == "slice"@);
        let r = count_type(c, "slice"@);
        assert forall|j: int| 0 <= j < 10 implies #[trigger] unit_type_count(r, j) == if j == k {
            unit_type_count(c, k) + 1
        } else {
            unit_type_count(c, j) as int
        } by {
            assert("slice"@[0] != "mount"@[0]);
            assert("slice"@[1] != "scope"@[1]);
            assert("slice"@[0] != "timer"@[0]);
        }
    } else if k == 7 {
        assert(unit_type_names()[k] == "socket"@);
        let r = count_type(c, "socket"@);
        assert forall|j: int| 0 <= j < 10 implies #[trigger] unit_type_count(r, j) == if j == k {
            unit_type_count(c, k) + 1
        } else {
            unit_type_count(c, j) as int
        } by {
            assert("socket"@[0] != "device"@[0]);
            assert("socket"@[0] != "target"@[0]);
        }
    } else if k == 8 {
        assert(unit_type_names()[k] == "target"@);
        let r = count_type(c, "target"@);
        assert forall|j: int| 0 <= j < 10 implies #[trigger] unit_type_count(r, j) == if j == k {
            unit_type_count(c, k) + 1
        } else {
            unit_type_count(c, j) as int
        } by {
            assert("target"@[0] != "device"@[0]);
            assert("target"@[0] != "socket"@[0]);
        }
    } else {
        assert(unit_type_names()[k] == "timer"@);
        let r = count_type(c, "timer"@);
        assert forall|j: int| 0 <= j < 10 implies #[trigger] unit_type_count(r, j) == if j == k {
            unit_type_count(c, k) + 1
        } else {
            unit_type_count(c, j) as int
        } by {
            assert("timer"@[0] != "mount"@[0]);
            assert("timer"@[0] != "scope"@[0]);
            assert("timer"@[0] != "slice"@[0]);
        }
    }
}

/// Counting a unit named `<pre>.<t>`, for `t` the `k`-th of the ten known
/// unit types, raises the count of `t` by one and leaves the other type
/// counts as they were.
pub proof fn lemma_unit_counted_by_type(c: UnitCounters, u: ListedUnit, pre: Seq<char>, k: int)
    requires
        0 <= k < 10,
        unit_counts_have_room(c),
        u.name@ == pre + "."@ + unit_type_names()[k],
    ensures
        forall|j: int| 0 <= j < 10 ==> #[trigger] unit_type_count(counters_after_unit(c, u), j) == if j == k {
            unit_type_count(c, k) + 1
        } else {
            unit_type_count(c, j) as int
        },
{
    let t = unit_type_names()[k];
    lemma_unit_type_names_have_no_dot(k);
    reveal_strlit(".");
    assert(pre + "."@ + t =~= pre + seq!['.'] + t);
    crate::text::lemma_after_last_of_suffix(pre, '.', t);
    lemma_type_counts_from_type(c, u);
    lemma_count_type_at(c, k);
}

/// Counting a unit whose type is none of the ten known ones leaves every
/// type count as it was.
pub proof fn lemma_unit_of_unknown_type(c: UnitCounters, u: ListedUnit)
    requires
        unit_counts_have_room(c),
        !unit_type_names().contains(after_last(u.name@, '.')),
    ensures
        forall|j: int| 0 <= j < 10 ==> #[trigger] unit_type_count(counters_after_unit(c, u), j) == unit_type_count(c, j),
{
    let t = after_last(u.name@, '.');
    assert(t != unit_type_names()[0]);
    assert(t != unit_type_names()[1]);
    assert(t != unit_type_names()[2]);
    assert(t != unit_type_names()[3]);
    assert(t != unit_type_names()[4]);
    assert(t != unit_type_names()[5]);
    assert(t != unit_type_names()[6]);
    assert(t != unit_type_names()[7]);
    assert(t != unit_type_names()[8]);
    assert(t != unit_type_names()[9]);
}

/// Counting a unit in the `k`-th counted load state raises that state's
/// count by one and leaves the other load counts as they were.
pub proof fn lemma_unit_counted_by_load_state(c: UnitCounters, u: ListedUnit, k: int)
    requires
        0 <= k < 3,
        unit_counts_have_room(c),
        u.load_state@ == load_state_names()[k],
    ensures
        forall|j: int| 0 <= j < 3 ==> #[trigger] load_count(counters_after_unit(c, u), j) == if j == k {
            load_count(c, k) + 1
        } else {
            load_count(c, j) as int
        },
{
    reveal_strlit("loaded");
    reveal_strlit("masked");
    reveal_strlit("not-found");
    if k == 0 {
        assert(u.load_state@ == "loaded"@);
    } else if k == 1 {
        assert(u.load_state@ == "masked"@);
        assert("masked"@[0] != "loaded"@[0]);
    } else {
        assert(u.load_state@ == "not-found"@);
    }
}

/// Counting a unit in the `k`-th counted active state raises that state's
/// count by one and leaves the other active counts as they were.
pub proof fn lemma_unit_counted_by_active_state(c: UnitCounters, u: ListedUnit, k: int)
    requires
        0 <= k < 4,
        unit_counts_have_room(c),
        u.active_state@ == active_state_names()[k],
    ensures
        forall|j: int| 0 <= j < 4 ==> #[trigger] active_count(counters_after_unit(c, u), j) == if j == k {
            active_count(c, k) + 1
        } else {
            active_count(c, j) as int
        },
{
    reveal_strlit("activating");
    reveal_strlit("active");
    reveal_strlit("failed");
    reveal_strlit("inactive");
    if k == 0 {
        assert(u.active_state@ == "activating"@);
        assert forall|j: int| 0 <= j < 4 implies #[trigger] active_count(counters_after_unit(c, u), j) == if j == k {
            active_count(c, k) + 1
        } else {
            active_count(c, j) as int
        } by {
            assert(u.active_state@ == "activating"@);
        }
    } else if k == 1 {
        assert(u.active_state@ == "active"@);
        assert forall|j: int| 0 <= j < 4 implies #[trigger] active_count(counters_after_unit(c, u), j) == if j == k {
            active_count(c, k) + 1
        } else {
            active_count(c, j) as int
        } by {
            assert(u.active_state@ == "active"@);
            assert("active"@.len() == 6);
            assert("activating"@.len() == 10);
        }
    } else if k == 2 {
        assert(u.active_state@ == "failed"@);
        assert("failed"@[0] != "active"@[0]);
        assert forall|j: int| 0 <= j < 4 implies #[trigger] active_count(counters_after_unit(c, u), j) == if j == k {
            active_count(c, k) + 1
        } else {
            active_count(c, j) as int
        } by {
            assert(u.active_state@ == "failed"@);
        }
    } else {
        assert(u.active_state@ == "inactive"@);
        assert forall|j: int| 0 <= j < 4 implies #[trigger] active_count(counters_after_unit(c, u), j) == if j == k {
            active_count(c, k) + 1
        } else {
            active_count(c, j) as int
        } by {
            assert(u.active_state@ == "inactive"@);
        }
    }
}

/// Counting a unit raises the queued jobs by one exactly when a job is
/// queued for it, and never touches the total.
pub proof fn lemma_unit_counted_by_job(c: UnitCounters, u: ListedUnit)
    requires
        unit_counts_have_room(c),
    ensures
        counters_after_unit(c, u).jobs_queued == c.jobs_queued + (if u.job_id != 0 { 1int } else { 0int }),
        counters_after_unit(c, u).total_units == c.total_units,
{
}

/// Count a listed unit by type, load state, active state and queued job.
pub fn parse_unit(stats: &mut SystemdUnitStats, unit: &ListedUnit)
    requires
        unit_counts_have_room(counters_of(*old(stats))),
    ensures
        counters_of(*final(stats)) == counters_after_unit(counters_of(*old(stats)), *unit),
        final(stats).unit_states@ == old(stats).unit_states@,
        final(stats).service_stats@ == old(stats).service_stats@,
        final(stats).timer_stats@ == old(stats).timer_stats@,
        final(stats).unit_files == old(stats).unit_files,
{
    let t = crate::text::string_after_last(unit.name.as_str(), '.');
    let ts = t.as_str();
    if str_eq(ts, "automount") {
        stats.automount_units = stats.automount_units + 1;
    } else if str_eq(ts, "device") {
        stats.device_units = stats.device_units + 1;
    } else if str_eq(ts, "mount") {
        stats.mount_units = stats.mount_units + 1;
    } else if str_eq(ts, "path") {
        stats.path_units = stats.path_units + 1;
    } else if str_eq(ts, "scope") {
        stats.scope_units = stats.scope_units + 1;
    } else if str_eq(ts, "service") {
        stats.service_units = stats.service_units + 1;
    } else if str_eq(ts, "slice") {
        stats.slice_units = stats.slice_units + 1;
    } else if str_eq(ts, "socket") {
        stats.socket_units = stats.socket_units + 1;
    } else if str_eq(ts, "target") {
        stats.target_units = stats.target_units + 1;
    } else if str_eq(ts, "timer") {
        stats.timer_units = stats.timer_units + 1;
    }
    let l = unit.load_state.as_str();
    if str_eq(l, "loaded") {
        stats.loaded_units = stats.loaded_units + 1;
    } else if str_eq(l, "masked") {
        stats.masked_units = stats.masked_units + 1;
    } else if str_eq(l, "not-found") {
        stats.not_found_units = stats.not_found_units + 1;
    }
    let a = unit.active_state.as_str();
    if str_eq(a, "activating") {
        stats.activating_units = stats.activating_units + 1;
    } else if str_eq(a, "active") {
        stats.active_units = stats.active_units + 1;
    } else if str_eq(a, "failed") {
        stats.failed_units = stats.failed_units + 1;
    } else if str_eq(a, "inactive") {
        stats.inactive_units = stats.inactive_units + 1;
    }
    if unit.job_id != 0 {
        stats.jobs_queued = stats.jobs_queued + 1;
    }
}

/// The counters after counting each listed unit in turn.
pub open spec fn counters_after_units(c: UnitCounters, units: Seq<ListedUnit>) -> UnitCounters
    decreases units.len(),
{
    if units.len() == 0 {
        c
    } else {
        counters_after_unit(counters_after_units(c, units.drop_last()), units.last())
    }
}

/// Every counter that counting units may raise has room for `n` more.
pub open spec fn room_for_units(c: UnitCounters, n: int) -> bool {
    &&& c.automount_units + n <= u64::MAX
    &&& c.device_units + n <= u64::MAX
    &&& c.mount_units + n <= u64::MAX
    &&& c.path_units + n <= u64::MAX
    &&& c.scope_units + n <= u64::MAX
    &&& c.service_units + n <= u64::MAX
    &&& c.slice_units + n <= u64::MAX
    &&& c.socket_units + n <= u64::MAX
    &&& c.target_units + n <= u64::MAX
    &&& c.timer_units + n <= u64::MAX
    &&& c.loaded_units + n <= u64::MAX
    &&& c.masked_units + n <= u64::MAX
    &&& c.not_found_units + n <= u64::MAX
    &&& c.activating_units + n <= u64::MAX
    &&& c.active_units + n <= u64::MAX
    &&& c.failed_units + n <= u64::MAX
    &&& c.inactive_units + n <= u64::MAX
    &&& c.jobs_queued + n <= u64::MAX
}

/// Every counter that counting units may raise is at most `n` above `base`.
pub open spec fn counts_within(c: UnitCounters, base: UnitCounters, n: int) -> bool {
    &&& c.automount_units <= base.automount_units + n
    &&& c.device_units <= base.device_units + n
    &&& c.mount_units <= base.mount_units + n
    &&& c.path_units <= base.path_units + n
    &&& c.scope_units <= base.scope_units + n
    &&& c.service_units <= base.service_units + n
    &&& c.slice_units <= base.slice_units + n
    &&& c.socket_units <= base.socket_units + n
    &&& c.target_units <= base.target_units + n
    &&& c.timer_units <= base.timer_units + n
    &&& c.loaded_units <= base.loaded_units + n
    &&& c.masked_units <= base.masked_units + n
    &&& c.not_found_units <= base.not_found_units + n
    &&& c.activating_units <= base.activating_units + n
    &&& c.active_units <= base.active_units + n
    &&& c.failed_units <= base.failed_units + n
    &&& c.inactive_units <= base.inactive_units + n
    &&& c.jobs_queued <= base.jobs_queued + n
}

proof fn lemma_unit_raises_by_one(c: UnitCounters, u: ListedUnit)
    requires
        unit_counts_have_room(c),
    ensures
        counts_within(counters_after_unit(c, u), c, 1),
{
}

/// Count the listed units: the total is their number, and each unit is
/// counted by type, load state, active state and queued job, in order.
pub fn count_listed_units(stats: &mut SystemdUnitStats, units: &Vec<ListedUnit>)
    requires
        room_for_units(counters_of(*old(stats)), units@.len() as int),
    ensures
        counters_of(*final(stats)) == counters_after_units(
            UnitCounters { total_units: units@.len() as u64, ..counters_of(*old(stats)) },
            units@,
        ),
        final(stats).unit_states@ == old(stats).unit_states@,
        final(stats).service_stats@ == old(stats).service_stats@,
        final(stats).timer_stats@ == old(stats).timer_stats@,
        final(stats).unit_files == old(stats).unit_files,
{
    let n = units.len();
    stats.total_units = n as u64;
    let ghost c0 = counters_of(*stats);
    let ghost u0 = stats.unit_states@;
    let ghost s0 = stats.service_stats@;
    let ghost t0 = stats.timer_stats@;
    let ghost f0 = stats.unit_files;
    let mut i: usize = 0;
    while i < n
        invariant
            i <= n,
            n == units@.len(),
            room_for_units(c0, n as int),
            counts_within(counters_of(*stats), c0, i as int),
            counters_of(*stats) == counters_after_units(c0, units@.take(i as int)),
            stats.unit_states@ == u0,
            stats.service_stats@ == s0,
            stats.timer_stats@ == t0,
            stats.unit_files == f0,
        decreases n - i,
    {
        proof {
            assert(units@.take(i + 1).drop_last() =~= units@.take(i as int));
            assert(units@.take(i + 1).last() == units@[i as int]);
            lemma_unit_raises_by_one(counters_of(*stats), units@[i as int]);
        }
        parse_unit(stats, &units[i]);
        i = i + 1;
    }
    proof {
        assert(units@.take(i as int) =~= units@);
    }
}

/// Whether a unit's state is tracked: not on the state blocklist, and on
/// the allowlist when that is not empty.
pub open spec fn state_listed(c: crate::config::UnitsConfig, name: Seq<char>) -> bool {
    !c.state_stats_blocklist@.contains(name) && (c.state_stats_allowlist@ == Set::<Seq<char>>::empty()
        || c.state_stats_allowlist@.contains(name))
}

/// The states a listed unit is recorded with: its active and load state
/// (an unknown name is `unknown`; the load state is read with `-` as `_`),
/// the health they give, and the time in state when it was looked up.
pub open spec fn listed_unit_states(u: ListedUnit, time_in_state_usecs: Option<u64>) -> UnitStates {
    let a = match active_state_of_name(u.active_state@) {
        Some(a) => a,
        None => SystemdUnitActiveState::unknown,
    };
    let l = match load_state_of_name(replace_char(u.load_state@, '-', '_')) {
        Some(l) => l,
        None => SystemdUnitLoadState::unknown,
    };
    UnitStates { active_state: a, load_state: l, unhealthy: unit_unhealthy(a, l), time_in_state_usecs }
}

/// Record a listed unit's states, unless the allowlist or blocklist leave
/// it out; says whether it was recorded. The time in state is looked up by
/// the caller, for recorded units, when that is configured.
pub fn parse_state(
    stats: &mut SystemdUnitStats,
    unit: &ListedUnit,
    config: &crate::config::UnitsConfig,
    time_in_state_usecs: Option<u64>,
) -> (r: bool)
    ensures
        r == state_listed(*config, unit.name@),
        r ==> final(stats).unit_states@ == old(stats).unit_states@.insert(
            unit.name@,
            listed_unit_states(*unit, time_in_state_usecs),
        ),
        !r ==> final(stats).unit_states@ == old(stats).unit_states@,
        counters_of(*final(stats)) == counters_of(*old(stats)),
        final(stats).service_stats@ == old(stats).service_stats@,
        final(stats).timer_stats@ == old(stats).timer_stats@,
        final(stats).unit_files == old(stats).unit_files,
{
    if config.state_stats_blocklist.contains(unit.name.as_str()) {
        return false;
    }
    if !config.state_stats_allowlist.is_empty() && !config.state_stats_allowlist.contains(unit.name.as_str()) {
        return false;
    }
    let active_state = match SystemdUnitActiveState::from_name(unit.active_state.as_str()) {
        Some(a) => a,
        None => SystemdUnitActiveState::unknown,
    };
    let normalized = crate::text::string_replace_char(unit.load_state.as_str(), '-', '_');
    let load_state = match SystemdUnitLoadState::from_name(normalized.as_str()) {
        Some(l) => l,
        None => SystemdUnitLoadState::unknown,
    };
    stats.unit_states.insert(
        unit.name.clone(),
        UnitStates {
            active_state,
            load_state,
            unhealthy: is_unit_unhealthy(active_state, load_state),
            time_in_state_usecs,
        },
    );
    true
}

/// Microseconds since a state change at `state_change_timestamp` (usec
/// since the epoch), seen at `now_secs` (whole seconds since the epoch).
pub fn time_in_state(now_secs: u64, state_change_timestamp: u64) -> (r: u64)
    requires
        now_secs * 1_000_000 <= u64::MAX,
        state_change_timestamp <= now_secs * 1_000_000,
    ensures
        r == now_secs * 1_000_000 - state_change_timestamp,
{
    now_secs * 1_000_000 - state_change_timestamp
}

/// The count of `k` in a count map, 0 when absent.
pub open spec fn count_in(m: Map<Seq<char>, u64>, k: Seq<char>) -> int {
    if m.dom().contains(k) {
        m[k] as int
    } else {
        0
    }
}

/// Add the counts of `source` to those of `target`, key by key.
pub fn merge_counts(target: &mut StrMap<u64>, source: StrMap<u64>)
    requires
        forall|k: Seq<char>| count_in(old(target)@, k) + count_in(source@, k) <= u64::MAX,
    ensures
        final(target)@.dom() == old(target)@.dom().union(source@.dom()),
        forall|k: Seq<char>| #[trigger] final(target)@.dom().contains(k) ==> final(target)@[k] == count_in(old(target)@, k)
            + count_in(source@, k),
{
    let n = source.len();
    let ghost items = source.items();
    let ghost t0 = target@;
    let mut i: usize = 0;
    while i < n
        invariant
            i <= n,
            n == items.len(),
            items == source.items(),
            crate::strmap::keys_distinct(items),
            forall|k: Seq<char>| #[trigger] source@.dom().contains(k) <==> exists|j: int|
                0 <= j < n && #[trigger] items[j].0 == k,
            forall|j: int| 0 <= j < n ==> #[trigger] source@[items[j].0] == items[j].1,
            forall|k: Seq<char>| count_in(t0, k) + count_in(source@, k) <= u64::MAX,
            forall|k: Seq<char>| #[trigger] target@.dom().contains(k) <==> (t0.dom().contains(k) || exists|j: int|
                0 <= j < i && #[trigger] items[j].0 == k),
            forall|k: Seq<char>| #[trigger] target@.dom().contains(k) ==> target@[k] == count_in(t0, k) + (if exists|j: int|
                0 <= j < i && #[trigger] items[j].0 == k {
                count_in(source@, k)
            } else {
                0
            }),
        decreases n - i,
    {
        let (k, c) = source.entry_at(i);
        let key = k.clone();
        let count = *c;
        let ghost kv = key@;
        proof {
            assert(source@[items[i as int].0] == items[i as int].1);
            assert(count_in(source@, kv) == count);
            assert(!exists|j: int| 0 <= j < i && #[trigger] items[j].0 == kv) by {
                if exists|j: int| 0 <= j < i && #[trigger] items[j].0 == kv {
                    let j = choose|j: int| 0 <= j < i && #[trigger] items[j].0 == kv;
                    assert(items[j].0 != items[i as int].0);
                }
            }
        }
        let cur: u64 = match target.get(key.as_str()) {
            Some(v) => *v,
            None => 0,
        };
        proof {
            assert(cur == count_in(t0, kv));
        }
        target.insert(key, cur + count);
        proof {
            assert forall|k2: Seq<char>| #[trigger] target@.dom().contains(k2) implies target@[k2] == count_in(t0, k2) + (if exists|j: int|
                0 <= j < i + 1 && #[trigger] items[j].0 == k2 {
                count_in(source@, k2)
            } else {
                0
            }) by {
                if k2 == kv {
                    assert(items[i as int].0 == k2);
                } else {
                    if exists|j: int| 0 <= j < i + 1 && #[trigger] items[j].0 == k2 {
                        let j = choose|j: int| 0 <= j < i + 1 && #[trigger] items[j].0 == k2;
                        assert(j < i);
                    }
                }
            }
            assert forall|k2: Seq<char>| #[trigger] target@.dom().contains(k2) <==> (t0.dom().contains(k2) || exists|j: int|
                0 <= j < i + 1 && #[trigger] items[j].0 == k2) by {
                if k2 == kv {
                    assert(items[i as int].0 == k2);
                } else if exists|j: int| 0 <= j < i + 1 && #[trigger] items[j].0 == k2 {
                    let j = choose|j: int| 0 <= j < i + 1 && #[trigger] items[j].0 == k2;
                    assert(j < i);
                }
            }
        }
        i = i + 1;
    }
    proof {
        assert(target@.dom() =~= t0.dom().union(source@.dom()));
    }
}


/// The unit files of each type among `names` (a file's type is the text
/// after its name's last `.`).
pub open spec fn type_counts(names: Seq<Seq<char>>) -> Map<Seq<char>, u64>
    decreases names.len(),
{
    if names.len() == 0 {
        Map::empty()
    } else {
        let m = type_counts(names.drop_last());
        let t = after_last(names.last(), '.');
        m.insert(t, (count_in(m, t) + 1) as u64)
    }
}

proof fn lemma_type_counts_bound(names: Seq<Seq<char>>, k: Seq<char>)
    ensures
        count_in(type_counts(names), k) <= names.len(),
    decreases names.len(),
{
    if names.len() > 0 {
        lemma_type_counts_bound(names.drop_last(), k);
    }
}

/// Count unit files by type from their names.
pub fn count_unit_files_by_type(names: &Vec<String>) -> (r: StrMap<u64>)
    ensures
        r@ == type_counts(names@.map_values(|s: String| s@)),
{
    let ghost all = names@.map_values(|s: String| s@);
    let mut r: StrMap<u64> = StrMap::new();
    let mut i: usize = 0;
    proof {
        assert(all.take(0) =~= Seq::<Seq<char>>::empty());
    }
    while i < names.len()
        invariant
            i <= names.len(),
            all == names@.map_values(|s: String| s@),
            r@ == type_counts(all.take(i as int)),
        decreases names.len() - i,
    {
        let t = crate::text::string_after_last(names[i].as_str(), '.');
        proof {
            assert(all.take(i + 1).drop_last() =~= all.take(i as int));
            assert(all.take(i + 1).last() == names@[i as int]@);
            lemma_type_counts_bound(all.take(i as int), t@);
        }
        let cur: u64 = match r.get(t.as_str()) {
            Some(c) => *c,
            None => 0,
        };
        r.insert(t, cur + 1);
        i = i + 1;
    }
    proof {
        assert(all.take(i as int) =~= all);
    }
    r
}

/// What the D-Bus units collector fetches for one listed unit beyond its
/// counts.
#[derive(Clone, Copy, Debug, PartialEq, Eq, Structural)]
pub struct UnitWork {
    /// Its active and load state (when `state_stats` is on).
    pub state: bool,
    /// Its service metrics (when `[services]` names it).
    pub service: bool,
    /// Its timer properties (a timer unit, timers on, and the timer lists
    /// let it through).
    pub timer: bool,
}

/// The work for a unit named `name`.
pub open spec fn unit_work_of(config: crate::config::Config, name: Seq<char>) -> UnitWork {
    UnitWork {
        state: config.units.state_stats,
        service: config.services@.contains(name),
        timer: config.timers.enabled && crate::text::contains_seq(name, ".timer"@) && !config.timers.blocklist@.contains(
            name,
        ) && (config.timers.allowlist@ == Set::<Seq<char>>::empty() || config.timers.allowlist@.contains(name)),
    }
}

/// What to fetch for the unit named `name`.
pub fn unit_work(config: &crate::config::Config, name: &str) -> (r: UnitWork)
    ensures
        r == unit_work_of(*config, name@),
{
    let timer = config.timers.enabled && crate::text::str_contains(name, ".timer") && !config.timers.blocklist.contains(
        name,
    ) && (config.timers.allowlist.is_empty() || config.timers.allowlist.contains(name));
    UnitWork { state: config.units.state_stats, service: config.services.contains(name), timer }
}

} // verus!
