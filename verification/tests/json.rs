use std::collections::BTreeMap;

use monitord::json::{
    flatten_dbus_stats, flatten_machine, flatten_networkd, flatten_pid1, flatten_services, flatten_timers,
    flatten_unit_states, flatten_units, flatten_verify_stats, gen_base_metric_key, FlatEntries, FlatValue,
};
use monitord::networkd::{AddressState, AdminState, BoolState, CarrierState, InterfaceState, NetworkdState, OperState};
use monitord::pid1::Pid1Stats;
use monitord::strmap::StrMap;
use monitord::timer::TimerStats;
use monitord::unit_constants::{SystemdUnitActiveState, SystemdUnitLoadState};
use monitord::units::{ServiceStats, SystemdUnitStats, UnitStates};
use monitord::verify::VerifyStats;
use monitord::MachineStats;

fn as_map(entries: FlatEntries) -> BTreeMap<String, FlatValue> {
    entries.into_iter().collect()
}

fn timer() -> TimerStats {
    TimerStats {
        accuracy_usec: 69,
        fixed_random_delay: true,
        last_trigger_usec: 69,
        last_trigger_usec_monotonic: 69,
        next_elapse_usec_monotonic: 69,
        next_elapse_usec_realtime: 69,
        persistent: false,
        randomized_delay_usec: 69,
        remain_after_elapse: true,
        service_unit_last_state_change_usec: 69,
        service_unit_last_state_change_usec_monotonic: 69,
    }
}

#[test]
fn metric_keys_take_the_prefix() {
    assert_eq!(gen_base_metric_key("", "units"), "units");
    assert_eq!(gen_base_metric_key("monitord", "units"), "monitord.units");
}

#[test]
fn networkd_entries() {
    let state = NetworkdState {
        interfaces_state: vec![InterfaceState {
            address_state: AddressState::routable,
            admin_state: AdminState::configured,
            carrier_state: CarrierState::carrier,
            ipv4_address_state: AddressState::routable,
            ipv6_address_state: AddressState::degraded,
            name: "eth0".to_string(),
            network_file: "/etc/systemd/network/69-eno4.network".to_string(),
            oper_state: OperState::routable,
            required_for_online: BoolState::True,
        }],
        managed_interfaces: 1,
    };
    let m = as_map(flatten_networkd(&state, ""));
    let expected = [
        ("networkd.eth0.address_state", 3),
        ("networkd.eth0.admin_state", 4),
        ("networkd.eth0.carrier_state", 5),
        ("networkd.eth0.ipv4_address_state", 3),
        ("networkd.eth0.ipv6_address_state", 2),
        ("networkd.eth0.oper_state", 9),
        ("networkd.eth0.required_for_online", 1),
        ("networkd.managed_interfaces", 1),
    ];
    assert_eq!(m.len(), expected.len());
    for (k, v) in expected {
        assert_eq!(m.get(k), Some(&FlatValue::Unsigned(v)), "{k}");
    }
}

#[test]
fn pid1_entries() {
    let p = Some(Pid1Stats { cpu_time_kernel: 69, cpu_time_user: 69, memory_usage_bytes: 69, fd_count: 69, tasks: 1 });
    let m = as_map(flatten_pid1(&p, ""));
    assert_eq!(m.len(), 5);
    assert_eq!(m.get("pid1.cpu_time_kernel"), Some(&FlatValue::Unsigned(69)));
    // The user CPU time has kept its historical key.
    assert_eq!(m.get("pid1.cpu_user_kernel"), Some(&FlatValue::Unsigned(69)));
    assert_eq!(m.get("pid1.tasks"), Some(&FlatValue::Unsigned(1)));
    assert!(flatten_pid1(&None, "").is_empty());
    let prefixed = as_map(flatten_pid1(&p, "monitord"));
    assert!(prefixed.keys().all(|k| k.starts_with("monitord.pid1.")));
}

#[test]
fn unit_entries() {
    let m = as_map(flatten_units(&SystemdUnitStats::default(), ""));
    assert_eq!(m.len(), 21);
    for k in ["units.active_units", "units.jobs_queued", "units.timer_remain_after_elapse", "units.total_units"] {
        assert_eq!(m.get(k), Some(&FlatValue::Unsigned(0)), "{k}");
    }
}

#[test]
fn service_timer_and_state_entries() {
    let mut services = StrMap::new();
    services.insert("unittest.service".to_string(), ServiceStats { status_errno: -69, ..Default::default() });
    let s = as_map(flatten_services(&services, ""));
    assert_eq!(s.len(), 16);
    assert_eq!(s.get("services.unittest.service.status_errno"), Some(&FlatValue::Signed(-69)));
    assert_eq!(s.get("services.unittest.service.nrestarts"), Some(&FlatValue::Unsigned(0)));

    let mut timers = StrMap::new();
    timers.insert("unittest.timer".to_string(), timer());
    let t = as_map(flatten_timers(&timers, ""));
    assert_eq!(t.len(), 11);
    assert_eq!(t.get("timers.unittest.timer.fixed_random_delay"), Some(&FlatValue::Unsigned(1)));
    assert_eq!(t.get("timers.unittest.timer.persistent"), Some(&FlatValue::Unsigned(0)));

    let mut states = StrMap::new();
    states.insert(
        "unittest.service".to_string(),
        UnitStates {
            active_state: SystemdUnitActiveState::active,
            load_state: SystemdUnitLoadState::loaded,
            unhealthy: false,
            time_in_state_usecs: Some(69),
        },
    );
    states.insert(
        r"nvme\x2dWDC.device".to_string(),
        UnitStates {
            active_state: SystemdUnitActiveState::active,
            load_state: SystemdUnitLoadState::loaded,
            unhealthy: false,
            time_in_state_usecs: None,
        },
    );
    let u = as_map(flatten_unit_states(&states, ""));
    assert_eq!(u.len(), 7);
    assert_eq!(u.get("unit_states.unittest.service.active_state"), Some(&FlatValue::Unsigned(1)));
    assert_eq!(u.get("unit_states.unittest.service.load_state"), Some(&FlatValue::Unsigned(1)));
    assert_eq!(u.get("unit_states.unittest.service.unhealthy"), Some(&FlatValue::Unsigned(0)));
    assert_eq!(u.get("unit_states.unittest.service.time_in_state_usecs"), Some(&FlatValue::Unsigned(69)));
    assert!(u.contains_key(r"unit_states.nvme\x2dWDC.device.active_state"));
    assert!(!u.contains_key(r"unit_states.nvme\x2dWDC.device.time_in_state_usecs"));
}

#[test]
fn verify_entries() {
    let mut by_type = StrMap::new();
    by_type.insert("service".to_string(), 2);
    by_type.insert("slice".to_string(), 1);
    let v = Some(VerifyStats { total: 3, by_type });
    let m = as_map(flatten_verify_stats(&v, ""));
    assert_eq!(m.len(), 3);
    assert_eq!(m.get("verify.failing.total"), Some(&FlatValue::Unsigned(3)));
    assert_eq!(m.get("verify.failing.service"), Some(&FlatValue::Unsigned(2)));
    assert_eq!(m.get("verify.failing.slice"), Some(&FlatValue::Unsigned(1)));
}

#[test]
fn machine_entries() {
    let mut stats = MachineStats::default();
    stats.units.timer_stats.insert("unittest.timer".to_string(), timer());
    let m = as_map(flatten_machine(&stats, "foo", ""));
    assert_eq!(m.get("machines.foo.networkd.managed_interfaces"), Some(&FlatValue::Unsigned(0)));
    assert_eq!(m.get("machines.foo.system-state"), Some(&FlatValue::Unsigned(0)));
    assert_eq!(m.get("machines.foo.units.total_units"), Some(&FlatValue::Unsigned(0)));
    assert_eq!(m.get("machines.foo.timers.unittest.timer.accuracy_usec"), Some(&FlatValue::Unsigned(69)));
    // networkd (1) + units (21) + system state (1) + timer (11)
    assert_eq!(m.len(), 34);
    let prefixed = as_map(flatten_machine(&stats, "foo", "monitord"));
    assert!(prefixed.keys().all(|k| k.starts_with("monitord.machines.foo.")));
}

#[test]
fn dbus_entries() {
    assert!(flatten_dbus_stats(&None, "").is_empty());
    let stats = monitord::dbus_stats::DBusStats {
        serial: Some(7),
        active_connections: Some(3),
        bus_names: Some(9),
        ..Default::default()
    };
    let m = as_map(flatten_dbus_stats(&Some(stats), ""));
    assert_eq!(m.len(), 2);
    assert_eq!(m.get("dbus.active_connections"), Some(&FlatValue::Unsigned(3)));
    assert_eq!(m.get("dbus.bus_names"), Some(&FlatValue::Unsigned(9)));
}

#[test]
fn prefixed_keys_all_start_with_prefix() {
    let mut stats = MachineStats::default();
    stats.units.timer_stats.insert("unittest.timer".to_string(), timer());
    stats.units.service_stats.insert("a.service".to_string(), ServiceStats::default());
    stats.pid1 = Some(Pid1Stats { cpu_time_kernel: 1, cpu_time_user: 2, memory_usage_bytes: 3, fd_count: 4, tasks: 5 });
    let mut by_type = StrMap::new();
    by_type.insert("service".to_string(), 2);
    stats.verify_stats = Some(VerifyStats { total: 2, by_type });
    let mut all: FlatEntries = Vec::new();
    all.extend(flatten_networkd(&stats.networkd, "monitord"));
    all.extend(flatten_units(&stats.units, "monitord"));
    all.extend(flatten_pid1(&stats.pid1, "monitord"));
    all.extend(flatten_services(&stats.units.service_stats, "monitord"));
    all.extend(flatten_timers(&stats.units.timer_stats, "monitord"));
    all.extend(flatten_unit_states(&stats.units.unit_states, "monitord"));
    all.extend(flatten_verify_stats(&stats.verify_stats, "monitord"));
    all.extend(flatten_machine(&stats, "foo", "monitord"));
    let dbus = monitord::dbus_stats::DBusStats { active_connections: Some(3), ..Default::default() };
    all.extend(flatten_dbus_stats(&Some(dbus), "monitord"));
    assert!(all.len() > 60);
    for (key, _value) in all.iter() {
        assert!(key.starts_with("monitord."), "{key}");
    }
}

#[test]
fn prefixed_entries_are_unprefixed_entries_with_prefix() {
    let mut stats = MachineStats::default();
    stats.units.timer_stats.insert("unittest.timer".to_string(), timer());
    stats.units.service_stats.insert("a.service".to_string(), ServiceStats::default());
    stats.pid1 = Some(Pid1Stats { cpu_time_kernel: 1, cpu_time_user: 2, memory_usage_bytes: 3, fd_count: 4, tasks: 5 });
    let with_prefix = |es: FlatEntries| -> FlatEntries {
        es.into_iter().map(|(k, v)| (format!("monitord.{k}"), v)).collect()
    };
    assert_eq!(flatten_machine(&stats, "foo", "monitord"), with_prefix(flatten_machine(&stats, "foo", "")));
    assert_eq!(flatten_pid1(&stats.pid1, "monitord"), with_prefix(flatten_pid1(&stats.pid1, "")));
    assert_eq!(flatten_units(&stats.units, "monitord"), with_prefix(flatten_units(&stats.units, "")));
    assert_eq!(
        flatten_timers(&stats.units.timer_stats, "monitord"),
        with_prefix(flatten_timers(&stats.units.timer_stats, ""))
    );
    let dbus = monitord::dbus_stats::DBusStats { active_connections: Some(3), bus_names: Some(9), ..Default::default() };
    let d = Some(dbus);
    assert_eq!(flatten_dbus_stats(&d, "monitord"), with_prefix(flatten_dbus_stats(&d, "")));
}
