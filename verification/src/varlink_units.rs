//! Unit statistics from systemd's `io.systemd.Metrics` stream: how each
//! metric updates the counters, the per-unit states and the per-service
//! restart counts, and the oneshot health override.
use vstd::prelude::*;

use crate::config::UnitsConfig;
use crate::names::NameSet;
use crate::strmap::StrMap;
use crate::text::{has_prefix, replace_char, str_eq, string_replace_char};
use crate::unit_constants::{
    active_state_of_name, is_unit_unhealthy, is_unit_unhealthy_for_service, load_state_of_name,
    service_unhealthy, unit_unhealthy, SystemdUnitActiveState, SystemdUnitLoadState,
};
use crate::units::{
    counters_of, no_service_stats, no_unit_states, zero_counters, ServiceStats, SystemdUnitStats, UnitCounters,
    UnitStates,
};
use crate::varlink::metrics::{metric_field_str, metric_object, metric_suffix, ListOutput, MetricValue};

verus! {

/// The active state a metric's string value names (`-` read as `_`).
pub open spec fn metric_active_state(m: ListOutput) -> Option<SystemdUnitActiveState> {
    match m.value {
        MetricValue::Str(s) => active_state_of_name(replace_char(s@, '-', '_')),
        _ => None,
    }
}

/// The load state a metric's string value names (`-` read as `_`, so
/// systemd's "not-found" is `not_found`).
pub open spec fn metric_load_state(m: ListOutput) -> Option<SystemdUnitLoadState> {
    match m.value {
        MetricValue::Str(s) => load_state_of_name(replace_char(s@, '-', '_')),
        _ => None,
    }
}

/// A metric's value as a count: an integer that is not negative.
pub open spec fn metric_count(m: ListOutput) -> Option<u64> {
    match m.value {
        MetricValue::Int(v) => if v >= 0 {
            Some(v as u64)
        } else {
            None
        },
        _ => None,
    }
}

/// A metric's value as a `u32`.
pub open spec fn metric_u32(m: ListOutput) -> Option<u32> {
    match m.value {
        MetricValue::Int(v) => if 0 <= v <= u32::MAX {
            Some(v as u32)
        } else {
            None
        },
        _ => None,
    }
}

/// Whether a unit's state is left out: it is on the blocklist, or the
/// allowlist is not empty and it is not on it.
pub open spec fn unit_skipped(c: UnitsConfig, name: Seq<char>) -> bool {
    c.state_stats_blocklist@.contains(name) || (c.state_stats_allowlist@ != Set::<Seq<char>>::empty()
        && !c.state_stats_allowlist@.contains(name))
}

/// Whether a unit's state is tracked.
pub open spec fn state_tracked(c: UnitsConfig, name: Seq<char>) -> bool {
    c.state_stats && !unit_skipped(c, name)
}

/// The counters with the count of unit type `t` set to `v`; an unknown type
/// changes nothing.
pub open spec fn with_type_count(c: UnitCounters, t: Seq<char>, v: u64) -> UnitCounters {
    if t == "automount"@ {
        UnitCounters { automount_units: v, ..c }
    } else if t == "device"@ {
        UnitCounters { device_units: v, ..c }
    } else if t == "mount"@ {
        UnitCounters { mount_units: v, ..c }
    } else if t == "path"@ {
        UnitCounters { path_units: v, ..c }
    } else if t == "scope"@ {
        UnitCounters { scope_units: v, ..c }
    } else if t == "service"@ {
        UnitCounters { service_units: v, ..c }
    } else if t == "slice"@ {
        UnitCounters { slice_units: v, ..c }
    } else if t == "socket"@ {
        UnitCounters { socket_units: v, ..c }
    } else if t == "target"@ {
        UnitCounters { target_units: v, ..c }
    } else if t == "timer"@ {
        UnitCounters { timer_units: v, ..c }
    } else {
        c
    }
}

/// The counters with the count of active state `s` set to `v`; only the
/// states activating, active, failed and inactive have a count.
pub open spec fn with_state_count(c: UnitCounters, s: Seq<char>, v: u64) -> UnitCounters {
    if s == "activating"@ {
        UnitCounters { activating_units: v, ..c }
    } else if s == "active"@ {
        UnitCounters { active_units: v, ..c }
    } else if s == "failed"@ {
        UnitCounters { failed_units: v, ..c }
    } else if s == "inactive"@ {
        UnitCounters { inactive_units: v, ..c }
    } else {
        c
    }
}

/// How a metric changes the counters.
pub open spec fn counters_after(c: UnitCounters, m: ListOutput) -> UnitCounters {
    let sfx = metric_suffix(m);
    if sfx == "UnitLoadState"@ {
        match metric_load_state(m) {
            Some(SystemdUnitLoadState::loaded) => UnitCounters { loaded_units: (c.loaded_units + 1) as u64, ..c },
            Some(SystemdUnitLoadState::masked) => UnitCounters { masked_units: (c.masked_units + 1) as u64, ..c },
            Some(SystemdUnitLoadState::not_found) => UnitCounters {
                not_found_units: (c.not_found_units + 1) as u64,
                ..c
            },
            _ => c,
        }
    } else if sfx == "UnitsByTypeTotal"@ {
        match (metric_field_str(m, "type"@), metric_count(m)) {
            (Some(t), Some(v)) => with_type_count(c, t, v),
            _ => c,
        }
    } else if sfx == "UnitsByStateTotal"@ {
        match (metric_field_str(m, "state"@), metric_count(m)) {
            (Some(s), Some(v)) => with_state_count(c, s, v),
            _ => c,
        }
    } else if sfx == "JobsQueued"@ {
        match metric_count(m) {
            Some(v) => UnitCounters { jobs_queued: v, ..c },
            None => c,
        }
    } else if sfx == "UnitsTotal"@ {
        match metric_count(m) {
            Some(v) => UnitCounters { total_units: v, ..c },
            None => c,
        }
    } else {
        c
    }
}

/// A unit's states so far: as tracked, or nothing known yet.
pub open spec fn states_of(u: Map<Seq<char>, UnitStates>, name: Seq<char>) -> UnitStates {
    if u.dom().contains(name) {
        u[name]
    } else {
        no_unit_states()
    }
}

/// How a metric changes the tracked unit states: an active or load state
/// of a tracked unit is recorded, and its health recomputed.
pub open spec fn unit_states_after(u: Map<Seq<char>, UnitStates>, m: ListOutput, c: UnitsConfig) -> Map<
    Seq<char>,
    UnitStates,
> {
    let sfx = metric_suffix(m);
    let obj = metric_object(m);
    let prev = states_of(u, obj);
    if sfx == "UnitActiveState"@ && state_tracked(c, obj) {
        match metric_active_state(m) {
            Some(a) => u.insert(
                obj,
                UnitStates { active_state: a, unhealthy: unit_unhealthy(a, prev.load_state), ..prev },
            ),
            None => u,
        }
    } else if sfx == "UnitLoadState"@ && state_tracked(c, obj) {
        match metric_load_state(m) {
            Some(l) => u.insert(
                obj,
                UnitStates { load_state: l, unhealthy: unit_unhealthy(prev.active_state, l), ..prev },
            ),
            None => u,
        }
    } else {
        u
    }
}

/// How a metric changes the per-service stats: a restart count of a
/// service on the `[services]` list is recorded.
pub open spec fn service_stats_after(
    s: Map<Seq<char>, ServiceStats>,
    m: ListOutput,
    services: Set<Seq<char>>,
) -> Map<Seq<char>, ServiceStats> {
    let obj = metric_object(m);
    if metric_suffix(m) == "NRestarts"@ && services.contains(obj) {
        match metric_u32(m) {
            Some(n) => {
                let prev = if s.dom().contains(obj) {
                    s[obj]
                } else {
                    no_service_stats()
                };
                s.insert(obj, ServiceStats { nrestarts: n, ..prev })
            },
            None => s,
        }
    } else {
        s
    }
}

/// The counter that a load state metric raises, if any, is below its
/// largest value.
pub open spec fn load_count_has_room(s: SystemdUnitStats, m: ListOutput) -> bool {
    match metric_load_state(m) {
        Some(SystemdUnitLoadState::loaded) => s.loaded_units < u64::MAX,
        Some(SystemdUnitLoadState::masked) => s.masked_units < u64::MAX,
        Some(SystemdUnitLoadState::not_found) => s.not_found_units < u64::MAX,
        _ => true,
    }
}

/// The active state a metric's value names.
pub fn parse_metric_active_state(metric: &ListOutput) -> (r: Option<SystemdUnitActiveState>)
    ensures
        r == metric_active_state(*metric),
{
    match &metric.value {
        MetricValue::Str(s) => {
            let normalized = string_replace_char(s.as_str(), '-', '_');
            SystemdUnitActiveState::from_name(normalized.as_str())
        },
        _ => None,
    }
}

/// The load state a metric's value names.
pub fn parse_metric_load_state(metric: &ListOutput) -> (r: Option<SystemdUnitLoadState>)
    ensures
        r == metric_load_state(*metric),
{
    match &metric.value {
        MetricValue::Str(s) => {
            let normalized = string_replace_char(s.as_str(), '-', '_');
            SystemdUnitLoadState::from_name(normalized.as_str())
        },
        _ => None,
    }
}

fn count_value(metric: &ListOutput) -> (r: Option<u64>)
    ensures
        r == metric_count(*metric),
{
    match metric.value {
        MetricValue::Int(v) => {
            if v >= 0 {
                Some(v as u64)
            } else {
                None
            }
        },
        _ => None,
    }
}

fn u32_value(metric: &ListOutput) -> (r: Option<u32>)
    ensures
        r == metric_u32(*metric),
{
    match metric.value {
        MetricValue::Int(v) => {
            if 0 <= v && v <= 0xffff_ffff {
                Some(v as u32)
            } else {
                None
            }
        },
        _ => None,
    }
}

/// Whether a unit's state is left out by the allowlist or blocklist.
pub fn should_skip_unit(object_name: &str, config: &UnitsConfig) -> (r: bool)
    ensures
        r == unit_skipped(*config, object_name@),
{
    if config.state_stats_blocklist.contains(object_name) {
        return true;
    }
    if !config.state_stats_allowlist.is_empty() && !config.state_stats_allowlist.contains(object_name) {
        return true;
    }
    false
}

fn set_type_count(stats: &mut SystemdUnitStats, t: &str, v: u64)
    ensures
        counters_of(*final(stats)) == with_type_count(counters_of(*old(stats)), t@, v),
        final(stats).unit_states@ == old(stats).unit_states@,
        final(stats).service_stats@ == old(stats).service_stats@,
        final(stats).timer_stats@ == old(stats).timer_stats@,
        final(stats).unit_files == old(stats).unit_files,
{
    if str_eq(t, "automount") {
        stats.automount_units = v;
    } else if str_eq(t, "device") {
        stats.device_units = v;
    } else if str_eq(t, "mount") {
        stats.mount_units = v;
    } else if str_eq(t, "path") {
        stats.path_units = v;
    } else if str_eq(t, "scope") {
        stats.scope_units = v;
    } else if str_eq(t, "service") {
        stats.service_units = v;
    } else if str_eq(t, "slice") {
        stats.slice_units = v;
    } else if str_eq(t, "socket") {
        stats.socket_units = v;
    } else if str_eq(t, "target") {
        stats.target_units = v;
    } else if str_eq(t, "timer") {
        stats.timer_units = v;
    }
}

fn set_state_count(stats: &mut SystemdUnitStats, s: &str, v: u64)
    ensures
        counters_of(*final(stats)) == with_state_count(counters_of(*old(stats)), s@, v),
        final(stats).unit_states@ == old(stats).unit_states@,
        final(stats).service_stats@ == old(stats).service_stats@,
        final(stats).timer_stats@ == old(stats).timer_stats@,
        final(stats).unit_files == old(stats).unit_files,
{
    if str_eq(s, "activating") {
        stats.activating_units = v;
    } else if str_eq(s, "active") {
        stats.active_units = v;
    } else if str_eq(s, "failed") {
        stats.failed_units = v;
    } else if str_eq(s, "inactive") {
        stats.inactive_units = v;
    }
}

/// The metric names this module reads are distinct.
proof fn lemma_metric_names_distinct()
    ensures
        "UnitActiveState"@ != "UnitLoadState"@,
        "UnitActiveState"@ != "UnitsByTypeTotal"@,
        "UnitActiveState"@ != "UnitsByStateTotal"@,
        "UnitActiveState"@ != "JobsQueued"@,
        "UnitActiveState"@ != "UnitsTotal"@,
        "NRestarts"@ != "UnitLoadState"@,
        "NRestarts"@ != "UnitsByTypeTotal"@,
        "NRestarts"@ != "UnitsByStateTotal"@,
        "NRestarts"@ != "JobsQueued"@,
        "NRestarts"@ != "UnitsTotal"@,
        "NRestarts"@ != "UnitActiveState"@,
        "UnitLoadState"@ != "UnitsByTypeTotal"@,
        "UnitLoadState"@ != "UnitsByStateTotal"@,
        "UnitLoadState"@ != "JobsQueued"@,
        "UnitLoadState"@ != "UnitsTotal"@,
        "UnitsByTypeTotal"@ != "UnitsByStateTotal"@,
        "UnitsByTypeTotal"@ != "JobsQueued"@,
        "UnitsByTypeTotal"@ != "UnitsTotal"@,
        "UnitsByStateTotal"@ != "JobsQueued"@,
        "UnitsByStateTotal"@ != "UnitsTotal"@,
        "JobsQueued"@ != "UnitsTotal"@,
{
    reveal_strlit("UnitActiveState");
    reveal_strlit("UnitLoadState");
    reveal_strlit("UnitsByTypeTotal");
    reveal_strlit("UnitsByStateTotal");
    reveal_strlit("JobsQueued");
    reveal_strlit("UnitsTotal");
    reveal_strlit("NRestarts");
    assert("JobsQueued"@[0] != "UnitsTotal"@[0]);
    assert("UnitActiveState"@.len() == 15);
    assert("UnitLoadState"@.len() == 13);
    assert("UnitsByTypeTotal"@.len() == 16);
    assert("UnitsByStateTotal"@.len() == 17);
    assert("JobsQueued"@.len() == 10);
    assert("UnitsTotal"@.len() == 10);
    assert("NRestarts"@.len() == 9);
}

/// Apply one metric of the stream to the unit statistics.
///
/// A unit's active or load state is recorded when state stats are on and
/// the unit is not filtered out; every load state also counts towards the
/// loaded, masked or not-found totals; a restart count is recorded for
/// services on the `[services]` list; type and state totals, queued jobs
/// and the unit total set their counters. A value of the wrong kind (or out
/// of range) is ignored, as is any other metric.
pub fn parse_one_metric(
    stats: &mut SystemdUnitStats,
    metric: &ListOutput,
    config: &UnitsConfig,
    services: &NameSet,
)
    requires
        metric_suffix(*metric) == "UnitLoadState"@ ==> load_count_has_room(*old(stats), *metric),
    ensures
        counters_of(*final(stats)) == counters_after(counters_of(*old(stats)), *metric),
        final(stats).unit_states@ == unit_states_after(old(stats).unit_states@, *metric, *config),
        final(stats).service_stats@ == service_stats_after(
            old(stats).service_stats@,
            *metric,
            services@,
        ),
        final(stats).timer_stats@ == old(stats).timer_stats@,
        final(stats).unit_files == old(stats).unit_files,
{
    proof {
        lemma_metric_names_distinct();
    }
    let suffix = metric.name_suffix();
    let object_name = metric.object_name();
    let sfx = suffix.as_str();
    if str_eq(sfx, "UnitActiveState") {
        if !config.state_stats || should_skip_unit(object_name.as_str(), config) {
            return;
        }
        let active_state = match parse_metric_active_state(metric) {
            Some(v) => v,
            None => {
                return;
            },
        };
        let prev: UnitStates = match stats.unit_states.get(object_name.as_str()) {
            Some(u) => *u,
            None => UnitStates::default(),
        };
        let updated = UnitStates {
            active_state,
            unhealthy: is_unit_unhealthy(active_state, prev.load_state),
            ..prev
        };
        stats.unit_states.insert(object_name, updated);
    } else if str_eq(sfx, "UnitLoadState") {
        let load_state = match parse_metric_load_state(metric) {
            Some(v) => v,
            None => {
                return;
            },
        };
        match load_state {
            SystemdUnitLoadState::loaded => stats.loaded_units = stats.loaded_units + 1,
            SystemdUnitLoadState::masked => stats.masked_units = stats.masked_units + 1,
            SystemdUnitLoadState::not_found => stats.not_found_units = stats.not_found_units + 1,
            _ => {},
        }
        if !config.state_stats || should_skip_unit(object_name.as_str(), config) {
            return;
        }
        let prev: UnitStates = match stats.unit_states.get(object_name.as_str()) {
            Some(u) => *u,
            None => UnitStates::default(),
        };
        let updated = UnitStates {
            load_state,
            unhealthy: is_unit_unhealthy(prev.active_state, load_state),
            ..prev
        };
        stats.unit_states.insert(object_name, updated);
    } else if str_eq(sfx, "NRestarts") {
        if !services.contains(object_name.as_str()) {
            return;
        }
        let n = match u32_value(metric) {
            Some(n) => n,
            None => {
                return;
            },
        };
        let prev: ServiceStats = match stats.service_stats.get(object_name.as_str()) {
            Some(s) => *s,
            None => ServiceStats::default(),
        };
        stats.service_stats.insert(object_name, ServiceStats { nrestarts: n, ..prev });
    } else if str_eq(sfx, "UnitsByTypeTotal") {
        match metric.get_field_as_str("type") {
            Some(t) => match count_value(metric) {
                Some(v) => set_type_count(stats, t.as_str(), v),
                None => {},
            },
            None => {},
        }
    } else if str_eq(sfx, "UnitsByStateTotal") {
        match metric.get_field_as_str("state") {
            Some(s) => match count_value(metric) {
                Some(v) => set_state_count(stats, s.as_str(), v),
                None => {},
            },
            None => {},
        }
    } else if str_eq(sfx, "JobsQueued") {
        match count_value(metric) {
            Some(v) => stats.jobs_queued = v,
            None => {},
        }
    } else if str_eq(sfx, "UnitsTotal") {
        match count_value(metric) {
            Some(v) => stats.total_units = v,
            None => {},
        }
    }
}


/// Whether a unit is a candidate for the oneshot override: an inactive,
/// loaded `.service` unit.
pub open spec fn oneshot_candidate(name: Seq<char>, st: UnitStates) -> bool {
    &&& name.len() >= 8
    &&& name.skip(name.len() - 8) == ".service"@
    &&& st.active_state == SystemdUnitActiveState::inactive
    &&& st.load_state == SystemdUnitLoadState::loaded
}

/// The candidates among tracked unit states, in their order.
pub open spec fn candidates_of(items: Seq<(Seq<char>, UnitStates)>) -> Seq<Seq<char>>
    decreases items.len(),
{
    if items.len() == 0 {
        Seq::empty()
    } else {
        let rest = candidates_of(items.drop_last());
        if oneshot_candidate(items.last().0, items.last().1) {
            rest.push(items.last().0)
        } else {
            rest
        }
    }
}

fn ends_with_service(name: &str) -> (r: bool)
    ensures
        r == (name@.len() >= 8 && name@.skip(name@.len() - 8) == ".service"@),
{
    let v = crate::text::str_chars(name);
    proof {
        reveal_strlit(".service");
    }
    if v.len() < 8 {
        return false;
    }
    let w = crate::text::str_chars(".service");
    let r = crate::text::range_eq(&v, v.len() - 8, v.len(), &w);
    proof {
        assert(v@.subrange(v.len() - 8, v.len() as int) =~= v@.skip(v.len() - 8));
    }
    r
}

/// The units whose health needs a service-type check: with the oneshot
/// override on, the inactive, loaded `.service` units; otherwise none.
pub fn select_oneshot_candidates(stats: &SystemdUnitStats, config: &UnitsConfig) -> (r: Vec<String>)
    ensures
        !config.ignore_inactive_oneshot_services ==> r@.len() == 0,
        config.ignore_inactive_oneshot_services ==> r@.map_values(|s: String| s@) == candidates_of(
            stats.unit_states.items(),
        ),
{
    let mut r: Vec<String> = Vec::new();
    if !config.ignore_inactive_oneshot_services {
        return r;
    }
    let n = stats.unit_states.len();
    let ghost items = stats.unit_states.items();
    let mut i: usize = 0;
    proof {
        assert(items.take(0) =~= Seq::<(Seq<char>, UnitStates)>::empty());
        assert(r@.map_values(|s: String| s@) =~= Seq::<Seq<char>>::empty());
    }
    while i < n
        invariant
            i <= n,
            n == items.len(),
            items == stats.unit_states.items(),
            r@.map_values(|s: String| s@) == candidates_of(items.take(i as int)),
        decreases n - i,
    {
        let (name, st) = stats.unit_states.entry_at(i);
        proof {
            assert(items.take(i + 1).drop_last() =~= items.take(i as int));
            assert(items.take(i + 1).last() == items[i as int]);
        }
        if ends_with_service(name.as_str()) && st.active_state == SystemdUnitActiveState::inactive
            && st.load_state == SystemdUnitLoadState::loaded {
            let ghost before = r@.map_values(|s: String| s@);
            r.push(name.clone());
            proof {
                assert(r@.map_values(|s: String| s@) =~= before.push(name@));
            }
        }
        i = i + 1;
    }
    proof {
        assert(items.take(i as int) =~= items);
    }
    r
}

/// Whether the lookup found a unit to be a oneshot service; a unit it has
/// no answer for is taken as not oneshot.
pub open spec fn looked_up_oneshot(types: Map<Seq<char>, bool>, name: Seq<char>) -> bool {
    types.dom().contains(name) && types[name]
}

/// Recompute the health of every tracked unit from the service types that
/// were looked up, when the oneshot override is on.
pub fn apply_oneshot_types(stats: &mut SystemdUnitStats, oneshot_types: &StrMap<bool>, config: &UnitsConfig)
    ensures
        counters_of(*final(stats)) == counters_of(*old(stats)),
        final(stats).service_stats@ == old(stats).service_stats@,
        final(stats).timer_stats@ == old(stats).timer_stats@,
        final(stats).unit_states@.dom() == old(stats).unit_states@.dom(),
        forall|k: Seq<char>| #[trigger] final(stats).unit_states@.dom().contains(k) ==> {
            let before = old(stats).unit_states@[k];
            let after = final(stats).unit_states@[k];
            &&& after.active_state == before.active_state
            &&& after.load_state == before.load_state
            &&& after.time_in_state_usecs == before.time_in_state_usecs
            &&& after.unhealthy == if config.ignore_inactive_oneshot_services {
                service_unhealthy(
                    before.active_state,
                    before.load_state,
                    looked_up_oneshot(oneshot_types@, k),
                    true,
                )
            } else {
                before.unhealthy
            }
        },
{
    if !config.ignore_inactive_oneshot_services {
        return;
    }
    let n = stats.unit_states.len();
    let ghost old_items = stats.unit_states.items();
    let ghost old_map = stats.unit_states@;
    let mut i: usize = 0;
    while i < n
        invariant
            i <= n,
            n == old_items.len(),
            config.ignore_inactive_oneshot_services,
            stats.unit_states.items().len() == n,
            forall|j: int| 0 <= j < n ==> #[trigger] stats.unit_states.items()[j].0 == old_items[j].0,
            forall|j: int| i <= j < n ==> #[trigger] stats.unit_states.items()[j] == old_items[j],
            forall|j: int| 0 <= j < i ==> {
                let before = #[trigger] old_items[j].1;
                let after = stats.unit_states.items()[j].1;
                &&& after.active_state == before.active_state
                &&& after.load_state == before.load_state
                &&& after.time_in_state_usecs == before.time_in_state_usecs
                &&& after.unhealthy == service_unhealthy(
                    before.active_state,
                    before.load_state,
                    looked_up_oneshot(oneshot_types@, old_items[j].0),
                    true,
                )
            },
            crate::strmap::keys_distinct(old_items),
            forall|k: Seq<char>| #[trigger] old_map.dom().contains(k) <==> exists|j: int|
                0 <= j < n && #[trigger] old_items[j].0 == k,
            forall|j: int| 0 <= j < n ==> #[trigger] old_map[old_items[j].0] == old_items[j].1,
            counters_of(*stats) == counters_of(*old(stats)),
            stats.service_stats@ == old(stats).service_stats@,
            stats.timer_stats@ == old(stats).timer_stats@,
        decreases n - i,
    {
        let (name, st) = stats.unit_states.entry_at(i);
        let is_oneshot = match oneshot_types.get(name.as_str()) {
            Some(b) => *b,
            None => false,
        };
        let updated = UnitStates {
            unhealthy: is_unit_unhealthy_for_service(st.active_state, st.load_state, is_oneshot, true),
            ..*st
        };
        stats.unit_states.set_at(i, updated);
        i = i + 1;
    }
    let _count = stats.unit_states.len();
    proof {
        assert forall|k: Seq<char>| #[trigger] stats.unit_states@.dom().contains(k) == old_map.dom().contains(k) by {
            if stats.unit_states@.dom().contains(k) {
                let j = choose|j: int| 0 <= j < n && #[trigger] stats.unit_states.items()[j].0 == k;
                assert(old_items[j].0 == k);
            }
            if old_map.dom().contains(k) {
                let j = choose|j: int| 0 <= j < n && #[trigger] old_items[j].0 == k;
                assert(stats.unit_states.items()[j].0 == k);
            }
        }
        assert(stats.unit_states@.dom() =~= old_map.dom());
        assert forall|k: Seq<char>| #[trigger] stats.unit_states@.dom().contains(k) implies {
            let before = old_map[k];
            let after = stats.unit_states@[k];
            &&& after.active_state == before.active_state
            &&& after.load_state == before.load_state
            &&& after.time_in_state_usecs == before.time_in_state_usecs
            &&& after.unhealthy == service_unhealthy(
                before.active_state,
                before.load_state,
                looked_up_oneshot(oneshot_types@, k),
                true,
            )
        } by {
            let j = choose|j: int| 0 <= j < n && #[trigger] stats.unit_states.items()[j].0 == k;
            assert(old_items[j].0 == k);
            assert(old_map[old_items[j].0] == old_items[j].1);
            assert(stats.unit_states@[stats.unit_states.items()[j].0] == stats.unit_states.items()[j].1);
        }
    }
}

/// The sum of the per-type counts.
pub open spec fn type_sum(c: UnitCounters) -> int {
    c.automount_units + c.device_units + c.mount_units + c.path_units + c.scope_units + c.service_units
        + c.slice_units + c.socket_units + c.target_units + c.timer_units
}

/// The per-type counts summed: the total for systemd versions whose
/// metrics lack `UnitsTotal` (unmapped types such as swap are missed).
pub fn sum_units_by_type(stats: &SystemdUnitStats) -> (r: u64)
    requires
        type_sum(counters_of(*stats)) <= u64::MAX,
    ensures
        r == type_sum(counters_of(*stats)),
{
    stats.automount_units + stats.device_units + stats.mount_units + stats.path_units
        + stats.scope_units + stats.service_units + stats.slice_units + stats.socket_units
        + stats.target_units + stats.timer_units
}

/// Use the per-type sum as the total when the stream reported none.
pub fn apply_total_fallback(stats: &mut SystemdUnitStats)
    requires
        old(stats).total_units == 0 ==> type_sum(counters_of(*old(stats))) <= u64::MAX,
    ensures
        old(stats).total_units != 0 ==> final(stats).total_units == old(stats).total_units,
        old(stats).total_units == 0 ==> final(stats).total_units == type_sum(counters_of(*old(stats))),
        counters_of(*final(stats)) == (UnitCounters { total_units: final(stats).total_units, ..counters_of(*old(stats)) }),
        final(stats).unit_states@ == old(stats).unit_states@,
        final(stats).service_stats@ == old(stats).service_stats@,
        final(stats).timer_stats@ == old(stats).timer_stats@,
        final(stats).unit_files == old(stats).unit_files,
{
    if stats.total_units == 0 {
        stats.total_units = sum_units_by_type(stats);
    }
}

/// The counters after a stream of metrics, in order.
pub open spec fn counters_after_all(c: UnitCounters, ms: Seq<ListOutput>) -> UnitCounters
    decreases ms.len(),
{
    if ms.len() == 0 {
        c
    } else {
        counters_after(counters_after_all(c, ms.drop_last()), ms.last())
    }
}

/// The tracked unit states after a stream of metrics, in order.
pub open spec fn unit_states_after_all(
    u: Map<Seq<char>, UnitStates>,
    ms: Seq<ListOutput>,
    c: UnitsConfig,
) -> Map<Seq<char>, UnitStates>
    decreases ms.len(),
{
    if ms.len() == 0 {
        u
    } else {
        unit_states_after(unit_states_after_all(u, ms.drop_last(), c), ms.last(), c)
    }
}

/// The per-service stats after a stream of metrics, in order.
pub open spec fn service_stats_after_all(
    s: Map<Seq<char>, ServiceStats>,
    ms: Seq<ListOutput>,
    services: Set<Seq<char>>,
) -> Map<Seq<char>, ServiceStats>
    decreases ms.len(),
{
    if ms.len() == 0 {
        s
    } else {
        service_stats_after(service_stats_after_all(s, ms.drop_last(), services), ms.last(), services)
    }
}

/// Apply a stream of metrics, in order (see `parse_one_metric`). Each load
/// state metric raises one count by one, so each of those counts plus the
/// number of metrics must fit a `u64`.
pub fn parse_metric_stream(
    stats: &mut SystemdUnitStats,
    metrics: &[ListOutput],
    config: &UnitsConfig,
    services: &NameSet,
)
    requires
        old(stats).loaded_units + metrics@.len() <= u64::MAX,
        old(stats).masked_units + metrics@.len() <= u64::MAX,
        old(stats).not_found_units + metrics@.len() <= u64::MAX,
    ensures
        counters_of(*final(stats)) == counters_after_all(counters_of(*old(stats)), metrics@),
        final(stats).unit_states@ == unit_states_after_all(old(stats).unit_states@, metrics@, *config),
        final(stats).service_stats@ == service_stats_after_all(old(stats).service_stats@, metrics@, services@),
        final(stats).timer_stats@ == old(stats).timer_stats@,
        final(stats).unit_files == old(stats).unit_files,
{
    let ghost c0 = counters_of(*stats);
    let ghost f0 = stats.unit_files;
    let ghost u0 = stats.unit_states@;
    let ghost s0 = stats.service_stats@;
    let ghost t0 = stats.timer_stats@;
    let mut i: usize = 0;
    while i < metrics.len()
        invariant
            i <= metrics@.len(),
            c0.loaded_units + metrics@.len() <= u64::MAX,
            c0.masked_units + metrics@.len() <= u64::MAX,
            c0.not_found_units + metrics@.len() <= u64::MAX,
            counters_of(*stats) == counters_after_all(c0, metrics@.take(i as int)),
            stats.loaded_units <= c0.loaded_units + i,
            stats.masked_units <= c0.masked_units + i,
            stats.not_found_units <= c0.not_found_units + i,
            stats.unit_states@ == unit_states_after_all(u0, metrics@.take(i as int), *config),
            stats.service_stats@ == service_stats_after_all(s0, metrics@.take(i as int), services@),
            stats.timer_stats@ == t0,
            stats.unit_files == f0,
        decreases metrics.len() - i,
    {
        proof {
            assert(metrics@.take(i + 1).drop_last() =~= metrics@.take(i as int));
            assert(metrics@.take(i + 1).last() == metrics@[i as int]);
        }
        parse_one_metric(stats, &metrics[i], config, services);
        i = i + 1;
    }
    proof {
        assert(metrics@.take(i as int) =~= metrics@);
    }
}

/// The counters with the total taken from the per-type counts when the
/// stream reported none.
pub open spec fn with_total_fallback(c: UnitCounters) -> UnitCounters {
    if c.total_units == 0 {
        UnitCounters { total_units: type_sum(c) as u64, ..c }
    } else {
        c
    }
}

/// The per-type sum fits a `u64` where it is needed as the total.
pub open spec fn fallback_fits(c: UnitCounters) -> bool {
    c.total_units == 0 ==> type_sum(c) <= u64::MAX
}

/// Unit statistics from the metrics stream: the stream applied to empty
/// statistics, then the total from the per-type counts if it reported none.
pub fn unit_stats_from_metrics(config: &crate::config::Config, metrics: &[ListOutput]) -> (r: SystemdUnitStats)
    requires
        fallback_fits(counters_after_all(zero_counters(), metrics@)),
    ensures
        counters_of(r) == with_total_fallback(counters_after_all(zero_counters(), metrics@)),
        r.unit_states@ == unit_states_after_all(Map::empty(), metrics@, config.units),
        r.service_stats@ == service_stats_after_all(Map::empty(), metrics@, config.services@),
        r.timer_stats@ == Map::<Seq<char>, crate::timer::TimerStats>::empty(),
        r.unit_files.root.generated@ == Map::<Seq<char>, u64>::empty(),
        r.unit_files.root.transient@ == Map::<Seq<char>, u64>::empty(),
        r.unit_files.user.generated@ == Map::<Seq<char>, u64>::empty(),
        r.unit_files.user.transient@ == Map::<Seq<char>, u64>::empty(),
{
    let mut stats = SystemdUnitStats::default();
    let n = metrics.len();
    assert(n as int <= u64::MAX);
    parse_metric_stream(&mut stats, metrics, &config.units, &config.services);
    apply_total_fallback(&mut stats);
    stats
}

/// The per-type counts summed, or `None` when the sum does not fit a `u64`.
pub fn checked_sum_units_by_type(stats: &SystemdUnitStats) -> (r: Option<u64>)
    ensures
        match r {
            Some(v) => v == type_sum(counters_of(*stats)),
            None => type_sum(counters_of(*stats)) > u64::MAX,
        },
{
    let wide: u128 = stats.automount_units as u128 + stats.device_units as u128 + stats.mount_units as u128
        + stats.path_units as u128 + stats.scope_units as u128 + stats.service_units as u128
        + stats.slice_units as u128 + stats.socket_units as u128 + stats.target_units as u128
        + stats.timer_units as u128;
    if wide <= u64::MAX as u128 {
        Some(wide as u64)
    } else {
        None
    }
}

/// Unit statistics from the metrics stream as `unit_stats_from_metrics`
/// gives them, or `None` when the stream reports no total and its per-type
/// counts sum past a `u64`.
pub fn try_unit_stats_from_metrics(config: &crate::config::Config, metrics: &[ListOutput]) -> (r: Option<
    SystemdUnitStats,
>)
    ensures
        r is None <==> !fallback_fits(counters_after_all(zero_counters(), metrics@)),
        r matches Some(s) ==> {
            &&& counters_of(s) == with_total_fallback(counters_after_all(zero_counters(), metrics@))
            &&& s.unit_states@ == unit_states_after_all(Map::empty(), metrics@, config.units)
            &&& s.service_stats@ == service_stats_after_all(Map::empty(), metrics@, config.services@)
            &&& s.timer_stats@ == Map::<Seq<char>, crate::timer::TimerStats>::empty()
            &&& s.unit_files.root.generated@ == Map::<Seq<char>, u64>::empty()
            &&& s.unit_files.root.transient@ == Map::<Seq<char>, u64>::empty()
            &&& s.unit_files.user.generated@ == Map::<Seq<char>, u64>::empty()
            &&& s.unit_files.user.transient@ == Map::<Seq<char>, u64>::empty()
        },
{
    let mut stats = SystemdUnitStats::default();
    let n = metrics.len();
    assert(n as int <= u64::MAX);
    parse_metric_stream(&mut stats, metrics, &config.units, &config.services);
    if stats.total_units == 0 {
        if checked_sum_units_by_type(&stats).is_none() {
            return None;
        }
    }
    apply_total_fallback(&mut stats);
    Some(stats)
}


/// The suffix of a metric named `<pre>.<sfx>`, for `sfx` free of dots, is
/// `sfx`.
proof fn lemma_suffix_of(m: ListOutput, pre: Seq<char>, sfx: Seq<char>)
    requires
        m.name@ == pre + "."@ + sfx,
        !sfx.contains('.'),
    ensures
        metric_suffix(m) == sfx,
{
    reveal_strlit(".");
    assert(pre + "."@ + sfx =~= pre + seq!['.'] + sfx);
    crate::text::lemma_after_last_of_suffix(pre, '.', sfx);
}

/// A `UnitsByStateTotal` metric whose `state` field names the `k`-th
/// counted active state and whose value is an integer `v >= 0` sets that
/// state's count to `v` and leaves the other state counts as they were.
pub proof fn lemma_state_total_sets_count(c: UnitCounters, m: ListOutput, pre: Seq<char>, k: int, v: i64)
    requires
        0 <= k < 4,
        m.name@ == pre + ".UnitsByStateTotal"@,
        metric_field_str(m, "state"@) == Some(crate::units::active_state_names()[k]),
        m.value == MetricValue::Int(v),
        v >= 0,
    ensures
        forall|j: int| 0 <= j < 4 ==> #[trigger] crate::units::active_count(counters_after(c, m), j) == if j == k {
            v as int
        } else {
            crate::units::active_count(c, j) as int
        },
{
    reveal_strlit(".");
    reveal_strlit("UnitsByStateTotal");
    reveal_strlit(".UnitsByStateTotal");
    assert(pre + ".UnitsByStateTotal"@ =~= pre + "."@ + "UnitsByStateTotal"@);
    assert(!"UnitsByStateTotal"@.contains('.')) by {
        reveal_strlit("UnitsByStateTotal");
        assert forall|i: int| 0 <= i < "UnitsByStateTotal"@.len() implies "UnitsByStateTotal"@[i] != '.' by {}
    }
    lemma_suffix_of(m, pre, "UnitsByStateTotal"@);
    lemma_metric_names_distinct();
    reveal_strlit("activating");
    reveal_strlit("active");
    reveal_strlit("failed");
    reveal_strlit("inactive");
    if k == 0 {
        assert(crate::units::active_state_names()[k] == "activating"@);
        assert forall|j: int| 0 <= j < 4 implies #[trigger] crate::units::active_count(counters_after(c, m), j) == if j == k {
            v as int
        } else {
            crate::units::active_count(c, j) as int
        } by {
            assert("activating"@.len() == 10 && "active"@.len() == 6);
            assert("activating"@.len() == 10 && "failed"@.len() == 6);
            assert("activating"@.len() == 10 && "inactive"@.len() == 8);
        }
    } else if k == 1 {
        assert(crate::units::active_state_names()[k] == "active"@);
        assert forall|j: int| 0 <= j < 4 implies #[trigger] crate::units::active_count(counters_after(c, m), j) == if j == k {
            v as int
        } else {
            crate::units::active_count(c, j) as int
        } by {
            assert("active"@.len() == 6 && "activating"@.len() == 10);
            assert("active"@[0] != "failed"@[0]);
            assert("active"@.len() == 6 && "inactive"@.len() == 8);
        }
    } else if k == 2 {
        assert(crate::units::active_state_names()[k] == "failed"@);
        assert forall|j: int| 0 <= j < 4 implies #[trigger] crate::units::active_count(counters_after(c, m), j) == if j == k {
            v as int
        } else {
            crate::units::active_count(c, j) as int
        } by {
            assert("failed"@.len() == 6 && "activating"@.len() == 10);
            assert("failed"@[0] != "active"@[0]);
            assert("failed"@.len() == 6 && "inactive"@.len() == 8);
        }
    } else {
        assert(crate::units::active_state_names()[k] == "inactive"@);
        assert forall|j: int| 0 <= j < 4 implies #[trigger] crate::units::active_count(counters_after(c, m), j) == if j == k {
            v as int
        } else {
            crate::units::active_count(c, j) as int
        } by {
            assert("inactive"@.len() == 8 && "activating"@.len() == 10);
            assert("inactive"@.len() == 8 && "active"@.len() == 6);
            assert("inactive"@.len() == 8 && "failed"@.len() == 6);
        }
    }
}

/// A `UnitsByTypeTotal` metric whose `type` field names the `k`-th of the
/// ten known unit types and whose value is an integer `v >= 0` sets that
/// type's count to `v` and leaves the other type counts as they were.
pub proof fn lemma_type_total_sets_count(c: UnitCounters, m: ListOutput, pre: Seq<char>, k: int, v: i64)
    requires
        0 <= k < 10,
        m.name@ == pre + ".UnitsByTypeTotal"@,
        metric_field_str(m, "type"@) == Some(crate::units::unit_type_names()[k]),
        m.value == MetricValue::Int(v),
        v >= 0,
    ensures
        forall|j: int| 0 <= j < 10 ==> #[trigger] crate::units::unit_type_count(counters_after(c, m), j) == if j == k {
            v as int
        } else {
            crate::units::unit_type_count(c, j) as int
        },
{
    reveal_strlit(".");
    reveal_strlit("UnitsByTypeTotal");
    reveal_strlit(".UnitsByTypeTotal");
    assert(pre + ".UnitsByTypeTotal"@ =~= pre + "."@ + "UnitsByTypeTotal"@);
    assert(!"UnitsByTypeTotal"@.contains('.')) by {
        reveal_strlit("UnitsByTypeTotal");
        assert forall|i: int| 0 <= i < "UnitsByTypeTotal"@.len() implies "UnitsByTypeTotal"@[i] != '.' by {}
    }
    lemma_suffix_of(m, pre, "UnitsByTypeTotal"@);
    lemma_metric_names_distinct();
    reveal_strlit("automount");
    reveal_strlit("device");
    reveal_strlit("mount");
    reveal_strlit("path");
    reveal_strlit("scope");
    reveal_strlit("service");
    reveal_strlit("slice");
    reveal_strlit("socket");
    reveal_strlit("target");
    reveal_strlit("timer");
    if k == 0 {
        assert(crate::units::unit_type_names()[k] == "automount"@);
        assert forall|j: int| 0 <= j < 10 implies #[trigger] crate::units::unit_type_count(counters_after(c, m), j) == if j == k {
            v as int
        } else {
            crate::units::unit_type_count(c, j) as int
        } by {
            assert("automount"@.len() == 9 && "device"@.len() == 6);
            assert("automount"@.len() == 9 && "mount"@.len() == 5);
            assert("automount"@.len() == 9 && "path"@.len() == 4);
            assert("automount"@.len() == 9 && "scope"@.len() == 5);
            assert("automount"@.len() == 9 && "service"@.len() == 7);
            assert("automount"@.len() == 9 && "slice"@.len() == 5);
            assert("automount"@.len() == 9 && "socket"@.len() == 6);
            assert("automount"@.len() == 9 && "target"@.len() == 6);
            assert("automount"@.len() == 9 && "timer"@.len() == 5);
        }
    } else if k == 1 {
        assert(crate::units::unit_type_names()[k] == "device"@);
        assert forall|j: int| 0 <= j < 10 implies #[trigger] crate::units::unit_type_count(counters_after(c, m), j) == if j == k {
            v as int
        } else {
            crate::units::unit_type_count(c, j) as int
        } by {
            assert("device"@.len() == 6 && "automount"@.len() == 9);
            assert("device"@.len() == 6 && "mount"@.len() == 5);
            assert("device"@.len() == 6 && "path"@.len() == 4);
            assert("device"@.len() == 6 && "scope"@.len() == 5);
            assert("device"@.len() == 6 && "service"@.len() == 7);
            assert("device"@.len() == 6 && "slice"@.len() == 5);
            assert("device"@[0] != "socket"@[0]);
            assert("device"@[0] != "target"@[0]);
            assert("device"@.len() == 6 && "timer"@.len() == 5);
        }
    } else if k == 2 {
        assert(crate::units::unit_type_names()[k] == "mount"@);
        assert forall|j: int| 0 <= j < 10 implies #[trigger] crate::units::unit_type_count(counters_after(c, m), j) == if j == k {
            v as int
        } else {
            crate::units::unit_type_count(c, j) as int
        } by {
            assert("mount"@.len() == 5 && "automount"@.len() == 9);
            assert("mount"@.len() == 5 && "device"@.len() == 6);
            assert("mount"@.len() == 5 && "path"@.len() == 4);
            assert("mount"@[0] != "scope"@[0]);
            assert("mount"@.len() == 5 && "service"@.len() == 7);
            assert("mount"@[0] != "slice"@[0]);
            assert("mount"@.len() == 5 && "socket"@.len() == 6);
            assert("mount"@.len() == 5 && "target"@.len() == 6);
            assert("mount"@[0] != "timer"@[0]);
        }
    } else if k == 3 {
        assert(crate::units::unit_type_names()[k] == "path"@);
        assert forall|j: int| 0 <= j < 10 implies #[trigger] crate::units::unit_type_count(counters_after(c, m), j) == if j == k {
            v as int
        } else {
            crate::units::unit_type_count(c, j) as int
        } by {
            assert("path"@.len() == 4 && "automount"@.len() == 9);
            assert("path"@.len() == 4 && "device"@.len() == 6);
            assert("path"@.len() == 4 && "mount"@.len() == 5);
            assert("path"@.len() == 4 && "scope"@.len() == 5);
            assert("path"@.len() == 4 && "service"@.len() == 7);
            assert("path"@.len() == 4 && "slice"@.len() == 5);
            assert("path"@.len() == 4 && "socket"@.len() == 6);
            assert("path"@.len() == 4 && "target"@.len() == 6);
            assert("path"@.len() == 4 && "timer"@.len() == 5);
        }
    } else if k == 4 {
        assert(crate::units::unit_type_names()[k] == "scope"@);
        assert forall|j: int| 0 <= j < 10 implies #[trigger] crate::units::unit_type_count(counters_after(c, m), j) == if j == k {
            v as int
        } else {
            crate::units::unit_type_count(c, j) as int
        } by {
            assert("scope"@.len() == 5 && "automount"@.len() == 9);
            assert("scope"@.len() == 5 && "device"@.len() == 6);
            assert("scope"@[0] != "mount"@[0]);
            assert("scope"@.len() == 5 && "path"@.len() == 4);
            assert("scope"@.len() == 5 && "service"@.len() == 7);
            assert("scope"@[1] != "slice"@[1]);
            assert("scope"@.len() == 5 && "socket"@.len() == 6);
            assert("scope"@.len() == 5 && "target"@.len() == 6);
            assert("scope"@[0] != "timer"@[0]);
        }
    } else if k == 5 {
        assert(crate::units::unit_type_names()[k] == "service"@);
        assert forall|j: int| 0 <= j < 10 implies #[trigger] crate::units::unit_type_count(counters_after(c, m), j) == if j == k {
            v as int
        } else {
            crate::units::unit_type_count(c, j) as int
        } by {
            assert("service"@.len() == 7 && "automount"@.len() == 9);
            assert("service"@.len() == 7 && "device"@.len() == 6);
            assert("service"@.len() == 7 && "mount"@.len() == 5);
            assert("service"@.len() == 7 && "path"@.len() == 4);
            assert("service"@.len() == 7 && "scope"@.len() == 5);
            assert("service"@.len() == 7 && "slice"@.len() == 5);
            assert("service"@.len() == 7 && "socket"@.len() == 6);
            assert("service"@.len() == 7 && "target"@.len() == 6);
            assert("service"@.len() == 7 && "timer"@.len() == 5);
        }
    } else if k == 6 {
        assert(crate::units::unit_type_names()[k] == "slice"@);
        assert forall|j: int| 0 <= j < 10 implies #[trigger] crate::units::unit_type_count(counters_after(c, m), j) == if j == k {
            v as int
        } else {
            crate::units::unit_type_count(c, j) as int
        } by {
            assert("slice"@.len() == 5 && "automount"@.len() == 9);
            assert("slice"@.len() == 5 && "device"@.len() == 6);
            assert("slice"@[0] != "mount"@[0]);
            assert("slice"@.len() == 5 && "path"@.len() == 4);
            assert("slice"@[1] != "scope"@[1]);
            assert("slice"@.len() == 5 && "service"@.len() == 7);
            assert("slice"@.len() == 5 && "socket"@.len() == 6);
            assert("slice"@.len() == 5 && "target"@.len() == 6);
            assert("slice"@[0] != "timer"@[0]);
        }
    } else if k == 7 {
        assert(crate::units::unit_type_names()[k] == "socket"@);
        assert forall|j: int| 0 <= j < 10 implies #[trigger] crate::units::unit_type_count(counters_after(c, m), j) == if j == k {
            v as int
        } else {
            crate::units::unit_type_count(c, j) as int
        } by {
            assert("socket"@.len() == 6 && "automount"@.len() == 9);
            assert("socket"@[0] != "device"@[0]);
            assert("socket"@.len() == 6 && "mount"@.len() == 5);
            assert("socket"@.len() == 6 && "path"@.len() == 4);
            assert("socket"@.len() == 6 && "scope"@.len() == 5);
            assert("socket"@.len() == 6 && "service"@.len() == 7);
            assert("socket"@.len() == 6 && "slice"@.len() == 5);
            assert("socket"@[0] != "target"@[0]);
            assert("socket"@.len() == 6 && "timer"@.len() == 5);
        }
    } else if k == 8 {
        assert(crate::units::unit_type_names()[k] == "target"@);
        assert forall|j: int| 0 <= j < 10 implies #[trigger] crate::units::unit_type_count(counters_after(c, m), j) == if j == k {
            v as int
        } else {
            crate::units::unit_type_count(c, j) as int
        } by {
            assert("target"@.len() == 6 && "automount"@.len() == 9);
            assert("target"@[0] != "device"@[0]);
            assert("target"@.len() == 6 && "mount"@.len() == 5);
            assert("target"@.len() == 6 && "path"@.len() == 4);
            assert("target"@.len() == 6 && "scope"@.len() == 5);
            assert("target"@.len() == 6 && "service"@.len() == 7);
            assert("target"@.len() == 6 && "slice"@.len() == 5);
            assert("target"@[0] != "socket"@[0]);
            assert("target"@.len() == 6 && "timer"@.len() == 5);
        }
    } else {
        assert(crate::units::unit_type_names()[k] == "timer"@);
        assert forall|j: int| 0 <= j < 10 implies #[trigger] crate::units::unit_type_count(counters_after(c, m), j) == if j == k {
            v as int
        } else {
            crate::units::unit_type_count(c, j) as int
        } by {
            assert("timer"@.len() == 5 && "automount"@.len() == 9);
            assert("timer"@.len() == 5 && "device"@.len() == 6);
            assert("timer"@[0] != "mount"@[0]);
            assert("timer"@.len() == 5 && "path"@.len() == 4);
            assert("timer"@[0] != "scope"@[0]);
            assert("timer"@.len() == 5 && "service"@.len() == 7);
            assert("timer"@[0] != "slice"@[0]);
            assert("timer"@.len() == 5 && "socket"@.len() == 6);
            assert("timer"@.len() == 5 && "target"@.len() == 6);
        }
    }
}


/// A `UnitLoadState` metric whose value names the `k`-th counted load
/// state raises that state's count by one and leaves the other load counts
/// as they were, whatever unit it is about.
pub proof fn lemma_load_state_metric_counts(c: UnitCounters, m: ListOutput, pre: Seq<char>, k: int, s: String)
    requires
        0 <= k < 3,
        crate::units::load_count(c, k) < u64::MAX,
        m.name@ == pre + ".UnitLoadState"@,
        m.value == MetricValue::Str(s),
        s@ == crate::units::load_state_names()[k],
    ensures
        forall|j: int| 0 <= j < 3 ==> #[trigger] crate::units::load_count(counters_after(c, m), j) == if j == k {
            crate::units::load_count(c, k) + 1
        } else {
            crate::units::load_count(c, j) as int
        },
{
    reveal_strlit(".");
    reveal_strlit("UnitLoadState");
    reveal_strlit(".UnitLoadState");
    assert(pre + ".UnitLoadState"@ =~= pre + "."@ + "UnitLoadState"@);
    assert(!"UnitLoadState"@.contains('.')) by {
        assert forall|i: int| 0 <= i < "UnitLoadState"@.len() implies "UnitLoadState"@[i] != '.' by {}
    }
    lemma_suffix_of(m, pre, "UnitLoadState"@);
    reveal_strlit("loaded");
    reveal_strlit("masked");
    reveal_strlit("not-found");
    reveal_strlit("not_found");
    reveal_strlit("unknown");
    reveal_strlit("error");
    if k == 0 {
        assert(replace_char(s@, '-', '_') =~= "loaded"@);
        assert(metric_load_state(m) == Some(SystemdUnitLoadState::loaded)) by {
            assert("loaded"@.len() == 6 && "unknown"@.len() == 7);
        }
    } else if k == 1 {
        assert(replace_char(s@, '-', '_') =~= "masked"@);
        assert(metric_load_state(m) == Some(SystemdUnitLoadState::masked)) by {
            assert("masked"@.len() == 6 && "unknown"@.len() == 7 && "error"@.len() == 5);
            assert("masked"@[0] != "loaded"@[0]);
        }
    } else {
        assert(replace_char(s@, '-', '_') =~= "not_found"@);
        assert(metric_load_state(m) == Some(SystemdUnitLoadState::not_found)) by {
            assert("not_found"@.len() == 9 && "unknown"@.len() == 7 && "error"@.len() == 5);
            assert("loaded"@.len() == 6 && "masked"@.len() == 6);
        }
    }
}


/// A `NRestarts` metric about a service on the `[services]` list, with an
/// integer value `v` that fits a `u32`, records `v` as that service's
/// restart count and changes no other service; one about any other unit
/// changes nothing.
pub proof fn lemma_restarts_recorded(
    st: Map<Seq<char>, ServiceStats>,
    m: ListOutput,
    pre: Seq<char>,
    services: Set<Seq<char>>,
    o: String,
    v: i64,
)
    requires
        m.name@ == pre + ".NRestarts"@,
        m.object == Some(o),
        m.value == MetricValue::Int(v),
        0 <= v <= u32::MAX,
    ensures
        services.contains(o@) ==> {
            let r = service_stats_after(st, m, services);
            &&& r.dom() == st.dom().insert(o@)
            &&& r[o@].nrestarts == v
            &&& forall|k: Seq<char>| k != o@ && st.dom().contains(k) ==> r[k] == #[trigger] st[k]
        },
        !services.contains(o@) ==> service_stats_after(st, m, services) == st,
{
    reveal_strlit(".");
    reveal_strlit("NRestarts");
    reveal_strlit(".NRestarts");
    assert(pre + ".NRestarts"@ =~= pre + "."@ + "NRestarts"@);
    assert(!"NRestarts"@.contains('.')) by {
        assert forall|i: int| 0 <= i < "NRestarts"@.len() implies "NRestarts"@[i] != '.' by {}
    }
    lemma_suffix_of(m, pre, "NRestarts"@);
    lemma_metric_names_distinct();
}

/// A `UnitActiveState` metric about a unit whose state is tracked (state
/// stats on, the unit not on the blocklist, and on the allowlist when there
/// is one) records the state its value names for that unit; a unit on the
/// blocklist keeps what it had, whatever the allowlist says.
pub proof fn lemma_active_state_recorded(
    u: Map<Seq<char>, UnitStates>,
    m: ListOutput,
    pre: Seq<char>,
    c: UnitsConfig,
    o: String,
    x: String,
    a: SystemdUnitActiveState,
)
    requires
        m.name@ == pre + ".UnitActiveState"@,
        m.object == Some(o),
        m.value == MetricValue::Str(x),
        active_state_of_name(replace_char(x@, '-', '_')) == Some(a),
    ensures
        c.state_stats && !c.state_stats_blocklist@.contains(o@) && (c.state_stats_allowlist@ == Set::<
            Seq<char>,
        >::empty() || c.state_stats_allowlist@.contains(o@)) ==> {
            let r = unit_states_after(u, m, c);
            &&& r.dom() == u.dom().insert(o@)
            &&& r[o@].active_state == a
        },
        c.state_stats_blocklist@.contains(o@) ==> unit_states_after(u, m, c) == u,
{
    reveal_strlit(".");
    reveal_strlit("UnitActiveState");
    reveal_strlit(".UnitActiveState");
    assert(pre + ".UnitActiveState"@ =~= pre + "."@ + "UnitActiveState"@);
    assert(!"UnitActiveState"@.contains('.')) by {
        assert forall|i: int| 0 <= i < "UnitActiveState"@.len() implies "UnitActiveState"@[i] != '.' by {}
    }
    lemma_suffix_of(m, pre, "UnitActiveState"@);
    lemma_metric_names_distinct();
}

/// `JobsQueued` and `UnitsTotal` metrics with an integer value `v >= 0` set
/// the queued jobs and the unit total to `v`.
pub proof fn lemma_jobs_and_total_set(c: UnitCounters, m: ListOutput, pre: Seq<char>, v: i64)
    requires
        m.value == MetricValue::Int(v),
        v >= 0,
    ensures
        m.name@ == pre + ".JobsQueued"@ ==> counters_after(c, m) == (UnitCounters { jobs_queued: v as u64, ..c }),
        m.name@ == pre + ".UnitsTotal"@ ==> counters_after(c, m) == (UnitCounters { total_units: v as u64, ..c }),
{
    reveal_strlit(".");
    if m.name@ == pre + ".JobsQueued"@ {
        reveal_strlit("JobsQueued");
        reveal_strlit(".JobsQueued");
        assert(pre + ".JobsQueued"@ =~= pre + "."@ + "JobsQueued"@);
        assert(!"JobsQueued"@.contains('.')) by {
            assert forall|i: int| 0 <= i < "JobsQueued"@.len() implies "JobsQueued"@[i] != '.' by {}
        }
        lemma_suffix_of(m, pre, "JobsQueued"@);
        lemma_metric_names_distinct();
    }
    if m.name@ == pre + ".UnitsTotal"@ {
        reveal_strlit("UnitsTotal");
        reveal_strlit(".UnitsTotal");
        assert(pre + ".UnitsTotal"@ =~= pre + "."@ + "UnitsTotal"@);
        assert(!"UnitsTotal"@.contains('.')) by {
            assert forall|i: int| 0 <= i < "UnitsTotal"@.len() implies "UnitsTotal"@[i] != '.' by {}
        }
        lemma_suffix_of(m, pre, "UnitsTotal"@);
        lemma_metric_names_distinct();
    }
}

} // verus!
