use monitord::config::{Config, UnitsConfig};
use monitord::names::NameSet;
use monitord::strmap::StrMap;
use monitord::unit_constants::{SystemdUnitActiveState, SystemdUnitLoadState};
use monitord::units::{SystemdUnitStats, UnitStates};
use monitord::varlink::metrics::{ListOutput, MetricValue};
use monitord::varlink_units::{
    apply_oneshot_types, apply_total_fallback, parse_metric_active_state, parse_metric_load_state,
    checked_sum_units_by_type, parse_metric_stream, parse_one_metric, select_oneshot_candidates,
    should_skip_unit, sum_units_by_type, try_unit_stats_from_metrics, unit_stats_from_metrics,
};

fn string_value(s: &str) -> MetricValue {
    MetricValue::Str(s.to_string())
}

fn int_value(i: i64) -> MetricValue {
    MetricValue::Int(i)
}

fn empty_value() -> MetricValue {
    MetricValue::Other
}

fn fields(key: &str, value: MetricValue) -> StrMap<MetricValue> {
    let mut f = StrMap::new();
    f.insert(key.to_string(), value);
    f
}

fn bools(entries: &[(&str, bool)]) -> StrMap<bool> {
    let mut m = StrMap::new();
    for (k, v) in entries {
        m.insert(k.to_string(), *v);
    }
    m
}

fn default_units_config() -> UnitsConfig {
    UnitsConfig {
        enabled: true,
        state_stats: true,
        state_stats_allowlist: NameSet::new(),
        state_stats_blocklist: NameSet::new(),
        state_stats_time_in_state: false,
        ignore_inactive_oneshot_services: true,
        unit_files: true,
        ..Default::default()
    }
}

#[test]
fn test_parse_one_metric_unit_active_state() {
    let mut stats = SystemdUnitStats::default();
    let config = default_units_config();

    let metric = ListOutput {
        name: "io.systemd.Manager.UnitActiveState".to_string(),
        value: string_value("active"),
        object: Some("my-service.service".to_string()),
        fields: None,
    };

    parse_one_metric(&mut stats, &metric, &config, &NameSet::new())
        ;

    assert_eq!(
        stats
            .unit_states
            .get("my-service.service")
            .expect("my-service.service should have a unit_states entry")
            .active_state,
        SystemdUnitActiveState::active
    );
}

#[test]
fn test_parse_one_metric_unit_load_state() {
    let mut stats = SystemdUnitStats::default();
    let config = default_units_config();

    // systemd sends "not-found" with a hyphen over both D-Bus and varlink;
    // parse_metric_enum must normalize it to "not_found" before enum parsing.
    let metric = ListOutput {
        name: "io.systemd.Manager.UnitLoadState".to_string(),
        value: string_value("not-found"),
        object: Some("missing.service".to_string()),
        fields: None,
    };

    parse_one_metric(&mut stats, &metric, &config, &NameSet::new())
        ;

    assert_eq!(
        stats
            .unit_states
            .get("missing.service")
            .expect("missing.service should have a unit_states entry")
            .load_state,
        SystemdUnitLoadState::not_found
    );
}

#[test]
fn test_parse_one_metric_nrestarts() {
    let mut stats = SystemdUnitStats::default();
    let config = default_units_config();
    // NRestarts is tracked per the [services] list, mirroring the D-Bus path.
    let services = NameSet::from_names(vec!["my-service.service".to_string()]);

    let metric = ListOutput {
        name: "io.systemd.Manager.NRestarts".to_string(),
        value: int_value(5),
        object: Some("my-service.service".to_string()),
        fields: None,
    };

    parse_one_metric(&mut stats, &metric, &config, &services)
        ;

    assert_eq!(
        stats
            .service_stats
            .get("my-service.service")
            .expect("my-service.service should have a service_stats entry")
            .nrestarts,
        5
    );

    // Units outside [services] get no service_stats entry even with data present.
    let other_metric = ListOutput {
        name: "io.systemd.Manager.NRestarts".to_string(),
        value: int_value(7),
        object: Some("other.service".to_string()),
        fields: None,
    };
    parse_one_metric(&mut stats, &other_metric, &config, &services);
    assert!(!stats.service_stats.contains_key("other.service"));
}

#[test]
fn test_parse_aggregated_metrics() {
    let mut stats = SystemdUnitStats::default();
    let config = default_units_config();

    // Test UnitsByTypeTotal
    let type_metric = ListOutput {
        name: "io.systemd.Manager.UnitsByTypeTotal".to_string(),
        value: int_value(42),
        object: None,
        fields: Some(fields("type", MetricValue::Str("service".to_string()))),
    };
    parse_one_metric(&mut stats, &type_metric, &config, &NameSet::new());
    assert_eq!(stats.service_units, 42);

    // Test UnitsByStateTotal
    let state_metric = ListOutput {
        name: "io.systemd.Manager.UnitsByStateTotal".to_string(),
        value: int_value(10),
        object: None,
        fields: Some(fields("state", MetricValue::Str("active".to_string()))),
    };
    parse_one_metric(&mut stats, &state_metric, &config, &NameSet::new());
    assert_eq!(stats.active_units, 10);

    // Test UnitsByStateTotal with activating state
    let activating_metric = ListOutput {
        name: "io.systemd.Manager.UnitsByStateTotal".to_string(),
        value: int_value(1),
        object: None,
        fields: Some(fields("state", MetricValue::Str("activating".to_string()))),
    };
    parse_one_metric(&mut stats, &activating_metric, &config, &NameSet::new());
    assert_eq!(stats.activating_units, 1);

    // Test JobsQueued
    let jobs_metric = ListOutput {
        name: "io.systemd.Manager.JobsQueued".to_string(),
        value: int_value(3),
        object: None,
        fields: None,
    };
    parse_one_metric(&mut stats, &jobs_metric, &config, &NameSet::new());
    assert_eq!(stats.jobs_queued, 3);

    // Test UnitsTotal
    let total_metric = ListOutput {
        name: "io.systemd.Manager.UnitsTotal".to_string(),
        value: int_value(196),
        object: None,
        fields: None,
    };
    parse_one_metric(&mut stats, &total_metric, &config, &NameSet::new());
    assert_eq!(stats.total_units, 196);
}

#[test]
fn test_sum_units_by_type_fallback() {
    // The fallback sums mapped per-type counts; unmapped types like swap
    // are missed, which is why the UnitsTotal metric is preferred.
    let stats = SystemdUnitStats {
        service_units: 86,
        timer_units: 2,
        ..Default::default()
    };
    assert_eq!(sum_units_by_type(&stats), 88);
    assert_eq!(sum_units_by_type(&SystemdUnitStats::default()), 0);
}

#[test]
fn test_parse_multiple_units() {
    let mut stats = SystemdUnitStats::default();
    let config = default_units_config();

    let metrics = vec![
        ListOutput {
            name: "io.systemd.Manager.UnitActiveState".to_string(),
            value: string_value("active"),
            object: Some("service1.service".to_string()),
            fields: None,
        },
        ListOutput {
            name: "io.systemd.Manager.UnitLoadState".to_string(),
            value: string_value("loaded"),
            object: Some("service1.service".to_string()),
            fields: None,
        },
        ListOutput {
            name: "io.systemd.Manager.UnitActiveState".to_string(),
            value: string_value("failed"),
            object: Some("service-2.service".to_string()),
            fields: None,
        },
    ];

    for metric in metrics {
        parse_one_metric(&mut stats, &metric, &config, &NameSet::new())
            ;
    }

    assert_eq!(stats.unit_states.len(), 2);
    assert_eq!(
        stats
            .unit_states
            .get("service1.service")
            .expect("service1.service should have a unit_states entry")
            .active_state,
        SystemdUnitActiveState::active
    );
    assert_eq!(
        stats
            .unit_states
            .get("service1.service")
            .expect("service1.service should have a unit_states entry")
            .load_state,
        SystemdUnitLoadState::loaded
    );
    assert_eq!(
        stats
            .unit_states
            .get("service-2.service")
            .expect("service-2.service should have a unit_states entry")
            .active_state,
        SystemdUnitActiveState::failed
    );
}

#[test]
fn test_parse_unknown_and_missing_values() {
    let mut stats = SystemdUnitStats::default();
    let config = default_units_config();

    // Unknown active state is skipped (not silently defaulted)
    let metric1 = ListOutput {
        name: "io.systemd.Manager.UnitActiveState".to_string(),
        value: string_value("invalid_state"),
        object: Some("test.service".to_string()),
        fields: None,
    };
    parse_one_metric(&mut stats, &metric1, &config, &NameSet::new());
    assert!(
        !stats.unit_states.contains_key("test.service"),
        "invalid state should be skipped"
    );

    // Missing nrestarts value (null) is skipped. The service must be in
    // [services] so the null-value path (not the gating) is what skips it.
    let metric2 = ListOutput {
        name: "io.systemd.Manager.NRestarts".to_string(),
        value: empty_value(),
        object: Some("test2.service".to_string()),
        fields: None,
    };
    let services = NameSet::from_names(vec!["test2.service".to_string()]);
    parse_one_metric(&mut stats, &metric2, &config, &services);
    assert!(
        !stats.service_stats.contains_key("test2.service"),
        "null value should be skipped"
    );
}

#[test]
fn test_parse_edge_cases() {
    let mut stats = SystemdUnitStats::default();
    let config = default_units_config();

    // Unknown unit type is ignored gracefully
    let metric1 = ListOutput {
        name: "io.systemd.Manager.UnitsByTypeTotal".to_string(),
        value: int_value(999),
        object: None,
        fields: Some(fields("type", MetricValue::Str("unknown_type".to_string()))),
    };
    parse_one_metric(&mut stats, &metric1, &config, &NameSet::new());
    assert_eq!(stats.service_units, 0);

    // Metric with no fields is handled gracefully
    let metric2 = ListOutput {
        name: "io.systemd.Manager.UnitsByTypeTotal".to_string(),
        value: int_value(42),
        object: None,
        fields: None,
    };
    parse_one_metric(&mut stats, &metric2, &config, &NameSet::new());

    // Non-string field value is ignored
    let metric3 = ListOutput {
        name: "io.systemd.Manager.UnitsByTypeTotal".to_string(),
        value: int_value(42),
        object: None,
        fields: Some(fields("type", MetricValue::Int(123))),
    };
    parse_one_metric(&mut stats, &metric3, &config, &NameSet::new());

    // Unhandled metric name is ignored
    let metric4 = ListOutput {
        name: "io.systemd.Manager.UnknownMetric".to_string(),
        value: int_value(999),
        object: Some("test.service".to_string()),
        fields: None,
    };
    parse_one_metric(&mut stats, &metric4, &config, &NameSet::new());
}

#[test]
fn test_state_stats_disabled_skips_unit_states_only() {
    // When state_stats=false, UnitActiveState / UnitLoadState are skipped so
    // unit_states remains empty. NRestarts follows the [services] list
    // instead (like the D-Bus path) and is unaffected by state_stats.
    let config = UnitsConfig {
        enabled: true,
        state_stats: false,
        state_stats_allowlist: NameSet::new(),
        state_stats_blocklist: NameSet::new(),
        state_stats_time_in_state: true,
        ignore_inactive_oneshot_services: true,
        unit_files: true,
        ..Default::default()
    };
    let services = NameSet::from_names(vec!["test.service".to_string()]);
    let mut stats = SystemdUnitStats::default();

    let active_state_metric = ListOutput {
        name: "io.systemd.Manager.UnitActiveState".to_string(),
        value: string_value("active"),
        object: Some("test.service".to_string()),
        fields: None,
    };
    parse_one_metric(&mut stats, &active_state_metric, &config, &services);

    let load_state_metric = ListOutput {
        name: "io.systemd.Manager.UnitLoadState".to_string(),
        value: string_value("loaded"),
        object: Some("test.service".to_string()),
        fields: None,
    };
    parse_one_metric(&mut stats, &load_state_metric, &config, &services);

    let nrestarts_metric = ListOutput {
        name: "io.systemd.Manager.NRestarts".to_string(),
        value: int_value(3),
        object: Some("test.service".to_string()),
        fields: None,
    };
    parse_one_metric(&mut stats, &nrestarts_metric, &config, &services);

    // Per-unit state data must be absent when state_stats=false, but the
    // [services]-listed unit still gets its restart count.
    assert_eq!(stats.unit_states.len(), 0);
    assert_eq!(
        stats
            .service_stats
            .get("test.service")
            .expect("test.service should have a service_stats entry")
            .nrestarts,
        3
    );

    // But aggregate type/state counts must still be processed (they are not gated on state_stats)
    let type_metric = ListOutput {
        name: "io.systemd.Manager.UnitsByTypeTotal".to_string(),
        value: int_value(10),
        object: None,
        fields: Some(fields("type", MetricValue::Str("service".to_string()))),
    };
    parse_one_metric(&mut stats, &type_metric, &config, &NameSet::new());
    assert_eq!(stats.service_units, 10);
}

#[test]
fn test_parse_metric_enum() {
    let metric_active = ListOutput {
        name: "io.systemd.Manager.UnitActiveState".to_string(),
        value: string_value("active"),
        object: Some("test.service".to_string()),
        fields: None,
    };
    assert_eq!(
        parse_metric_active_state(&metric_active),
        Some(SystemdUnitActiveState::active)
    );

    let metric_loaded = ListOutput {
        name: "io.systemd.Manager.UnitLoadState".to_string(),
        value: string_value("loaded"),
        object: Some("test.service".to_string()),
        fields: None,
    };
    assert_eq!(
        parse_metric_load_state(&metric_loaded),
        Some(SystemdUnitLoadState::loaded)
    );

    // Invalid value returns None
    let metric_invalid = ListOutput {
        name: "io.systemd.Manager.UnitActiveState".to_string(),
        value: string_value("invalid"),
        object: Some("test.service".to_string()),
        fields: None,
    };
    assert_eq!(
        parse_metric_active_state(&metric_invalid),
        None
    );

    // Null value returns None
    let metric_empty = ListOutput {
        name: "io.systemd.Manager.UnitActiveState".to_string(),
        value: empty_value(),
        object: Some("test.service".to_string()),
        fields: None,
    };
    assert_eq!(
        parse_metric_active_state(&metric_empty),
        None
    );
}

#[test]
fn test_parse_metric_enum_all_states() {
    // Test all active states
    let active_states = vec![
        ("active", SystemdUnitActiveState::active),
        ("reloading", SystemdUnitActiveState::reloading),
        ("inactive", SystemdUnitActiveState::inactive),
        ("failed", SystemdUnitActiveState::failed),
        ("activating", SystemdUnitActiveState::activating),
        ("deactivating", SystemdUnitActiveState::deactivating),
    ];

    for (state_str, expected) in active_states {
        let metric = ListOutput {
            name: "io.systemd.Manager.UnitActiveState".to_string(),
            value: string_value(state_str),
            object: Some("test.service".to_string()),
            fields: None,
        };
        assert_eq!(
            parse_metric_active_state(&metric),
            Some(expected)
        );
    }

    // Test all load states
    let load_states = vec![
        ("loaded", SystemdUnitLoadState::loaded),
        ("error", SystemdUnitLoadState::error),
        ("masked", SystemdUnitLoadState::masked),
        ("not_found", SystemdUnitLoadState::not_found),
    ];

    for (state_str, expected) in load_states {
        let metric = ListOutput {
            name: "io.systemd.Manager.UnitLoadState".to_string(),
            value: string_value(state_str),
            object: Some("test.service".to_string()),
            fields: None,
        };
        assert_eq!(
            parse_metric_load_state(&metric),
            Some(expected)
        );
    }
}

#[test]
fn test_parse_state_updates() {
    let mut stats = SystemdUnitStats::default();
    let config = default_units_config();

    // Parse initial state
    let metric1 = ListOutput {
        name: "io.systemd.Manager.UnitActiveState".to_string(),
        value: string_value("inactive"),
        object: Some("test.service".to_string()),
        fields: None,
    };
    parse_one_metric(&mut stats, &metric1, &config, &NameSet::new());
    assert_eq!(
        stats
            .unit_states
            .get("test.service")
            .expect("test.service should have a unit_states entry")
            .active_state,
        SystemdUnitActiveState::inactive
    );

    // Update to active state
    let metric2 = ListOutput {
        name: "io.systemd.Manager.UnitActiveState".to_string(),
        value: string_value("active"),
        object: Some("test.service".to_string()),
        fields: None,
    };
    parse_one_metric(&mut stats, &metric2, &config, &NameSet::new());
    assert_eq!(
        stats
            .unit_states
            .get("test.service")
            .expect("test.service should have a unit_states entry")
            .active_state,
        SystemdUnitActiveState::active
    );
}

#[test]
fn test_unhealthy_computed() {
    let mut stats = SystemdUnitStats::default();
    let config = default_units_config();

    // Set active state to failed
    let metric1 = ListOutput {
        name: "io.systemd.Manager.UnitActiveState".to_string(),
        value: string_value("failed"),
        object: Some("broken.service".to_string()),
        fields: None,
    };
    parse_one_metric(&mut stats, &metric1, &config, &NameSet::new());

    // Set load state to loaded
    let metric2 = ListOutput {
        name: "io.systemd.Manager.UnitLoadState".to_string(),
        value: string_value("loaded"),
        object: Some("broken.service".to_string()),
        fields: None,
    };
    parse_one_metric(&mut stats, &metric2, &config, &NameSet::new());

    // Should be unhealthy: loaded + failed
    assert!(
        stats
            .unit_states
            .get("broken.service")
            .expect("broken.service should have a unit_states entry")
            .unhealthy
    );

    // Set active state to active
    let metric3 = ListOutput {
        name: "io.systemd.Manager.UnitActiveState".to_string(),
        value: string_value("active"),
        object: Some("healthy.service".to_string()),
        fields: None,
    };
    parse_one_metric(&mut stats, &metric3, &config, &NameSet::new());

    // Set load state to loaded
    let metric4 = ListOutput {
        name: "io.systemd.Manager.UnitLoadState".to_string(),
        value: string_value("loaded"),
        object: Some("healthy.service".to_string()),
        fields: None,
    };
    parse_one_metric(&mut stats, &metric4, &config, &NameSet::new());

    // Should be healthy: loaded + active
    assert!(
        !stats
            .unit_states
            .get("healthy.service")
            .expect("healthy.service should have a unit_states entry")
            .unhealthy
    );
}

#[test]
fn test_oneshot_inactive_service_is_candidate() {
    let mut stats = SystemdUnitStats::default();
    let config = default_units_config();
    let metrics = vec![
        ListOutput {
            name: "io.systemd.Manager.UnitActiveState".to_string(),
            value: string_value("inactive"),
            object: Some("done.service".to_string()),
            fields: None,
        },
        ListOutput {
            name: "io.systemd.Manager.UnitLoadState".to_string(),
            value: string_value("loaded"),
            object: Some("done.service".to_string()),
            fields: None,
        },
    ];

    for metric in &metrics {
        parse_one_metric(&mut stats, metric, &config, &NameSet::new())
            ;
    }

    assert_eq!(
        select_oneshot_candidates(&stats, &config),
        vec!["done.service".to_string()]
    );
}

#[test]
fn test_oneshot_candidate_selection_skips_non_candidates() {
    let mut stats = SystemdUnitStats::default();
    let config = default_units_config();
    // Active service: healthy already, no type lookup needed.
    stats.unit_states.insert(
        "running.service".to_string(),
        UnitStates {
            active_state: SystemdUnitActiveState::active,
            load_state: SystemdUnitLoadState::loaded,
            unhealthy: false,
            time_in_state_usecs: None,
        },
    );
    // Non-service unit: service type does not apply.
    stats.unit_states.insert(
        "waiting.timer".to_string(),
        UnitStates {
            active_state: SystemdUnitActiveState::inactive,
            load_state: SystemdUnitLoadState::loaded,
            unhealthy: true,
            time_in_state_usecs: None,
        },
    );
    // Masked service: never unhealthy, no type lookup needed.
    stats.unit_states.insert(
        "masked.service".to_string(),
        UnitStates {
            active_state: SystemdUnitActiveState::inactive,
            load_state: SystemdUnitLoadState::masked,
            unhealthy: false,
            time_in_state_usecs: None,
        },
    );
    // The only real candidate.
    stats.unit_states.insert(
        "done.service".to_string(),
        UnitStates {
            active_state: SystemdUnitActiveState::inactive,
            load_state: SystemdUnitLoadState::loaded,
            unhealthy: true,
            time_in_state_usecs: None,
        },
    );

    assert_eq!(
        select_oneshot_candidates(&stats, &config),
        vec!["done.service".to_string()]
    );
}

#[test]
fn test_oneshot_override_marks_oneshot_healthy() {
    let mut stats = SystemdUnitStats::default();
    let config = default_units_config();
    stats.unit_states.insert(
        "done.service".to_string(),
        UnitStates {
            active_state: SystemdUnitActiveState::inactive,
            load_state: SystemdUnitLoadState::loaded,
            unhealthy: true,
            time_in_state_usecs: None,
        },
    );
    stats.unit_states.insert(
        "simple.service".to_string(),
        UnitStates {
            active_state: SystemdUnitActiveState::inactive,
            load_state: SystemdUnitLoadState::loaded,
            unhealthy: true,
            time_in_state_usecs: None,
        },
    );
    // failed.service has no type entry (lookup failed): stays unhealthy.
    stats.unit_states.insert(
        "failed.service".to_string(),
        UnitStates {
            active_state: SystemdUnitActiveState::inactive,
            load_state: SystemdUnitLoadState::loaded,
            unhealthy: true,
            time_in_state_usecs: None,
        },
    );
    let types = bools(&[("done.service", true), ("simple.service", false)]);

    apply_oneshot_types(&mut stats, &types, &config);

    assert!(
        !stats
            .unit_states
            .get("done.service")
            .expect("done.service should have a unit_states entry")
            .unhealthy
    );
    assert!(
        stats
            .unit_states
            .get("simple.service")
            .expect("simple.service should have a unit_states entry")
            .unhealthy
    );
    assert!(
        stats
            .unit_states
            .get("failed.service")
            .expect("failed.service should have a unit_states entry")
            .unhealthy
    );
}

#[test]
fn test_oneshot_override_can_be_disabled() {
    let mut stats = SystemdUnitStats::default();
    let mut config = default_units_config();
    config.ignore_inactive_oneshot_services = false;
    stats.unit_states.insert(
        "done.service".to_string(),
        UnitStates {
            active_state: SystemdUnitActiveState::inactive,
            load_state: SystemdUnitLoadState::loaded,
            unhealthy: true,
            time_in_state_usecs: None,
        },
    );

    assert!(select_oneshot_candidates(&stats, &config).is_empty());

    let types = bools(&[("done.service", true)]);
    apply_oneshot_types(&mut stats, &types, &config);

    assert!(
        stats
            .unit_states
            .get("done.service")
            .expect("done.service should have a unit_states entry")
            .unhealthy
    );
}

#[test]
fn test_allowlist_filtering() {
    let mut stats = SystemdUnitStats::default();
    let config = UnitsConfig {
        enabled: true,
        state_stats: true,
        state_stats_allowlist: NameSet::from_names(vec!["allowed.service".to_string()]),
        state_stats_blocklist: NameSet::new(),
        state_stats_time_in_state: false,
        ignore_inactive_oneshot_services: true,
        unit_files: true,
        ..Default::default()
    };

    // Allowed unit should be tracked
    let metric1 = ListOutput {
        name: "io.systemd.Manager.UnitActiveState".to_string(),
        value: string_value("active"),
        object: Some("allowed.service".to_string()),
        fields: None,
    };
    parse_one_metric(&mut stats, &metric1, &config, &NameSet::new());
    assert!(stats.unit_states.contains_key("allowed.service"));

    // Non-allowed unit should be skipped
    let metric2 = ListOutput {
        name: "io.systemd.Manager.UnitActiveState".to_string(),
        value: string_value("active"),
        object: Some("not-allowed.service".to_string()),
        fields: None,
    };
    parse_one_metric(&mut stats, &metric2, &config, &NameSet::new());
    assert!(!stats.unit_states.contains_key("not-allowed.service"));
}

#[test]
fn test_blocklist_filtering() {
    let mut stats = SystemdUnitStats::default();
    let config = UnitsConfig {
        enabled: true,
        state_stats: true,
        state_stats_allowlist: NameSet::new(),
        state_stats_blocklist: NameSet::from_names(vec!["blocked.service".to_string()]),
        state_stats_time_in_state: false,
        ignore_inactive_oneshot_services: true,
        unit_files: true,
        ..Default::default()
    };

    // Blocked unit should be skipped
    let metric1 = ListOutput {
        name: "io.systemd.Manager.UnitActiveState".to_string(),
        value: string_value("active"),
        object: Some("blocked.service".to_string()),
        fields: None,
    };
    parse_one_metric(&mut stats, &metric1, &config, &NameSet::new());
    assert!(!stats.unit_states.contains_key("blocked.service"));

    // Non-blocked unit should be tracked
    let metric2 = ListOutput {
        name: "io.systemd.Manager.UnitActiveState".to_string(),
        value: string_value("active"),
        object: Some("ok.service".to_string()),
        fields: None,
    };
    parse_one_metric(&mut stats, &metric2, &config, &NameSet::new());
    assert!(stats.unit_states.contains_key("ok.service"));
}

#[test]
fn test_blocklist_overrides_allowlist() {
    let mut stats = SystemdUnitStats::default();
    let config = UnitsConfig {
        enabled: true,
        state_stats: true,
        state_stats_allowlist: NameSet::from_names(vec!["both.service".to_string()]),
        state_stats_blocklist: NameSet::from_names(vec!["both.service".to_string()]),
        state_stats_time_in_state: false,
        ignore_inactive_oneshot_services: true,
        unit_files: true,
        ..Default::default()
    };

    // Unit in both lists should be blocked (blocklist takes priority)
    let metric = ListOutput {
        name: "io.systemd.Manager.UnitActiveState".to_string(),
        value: string_value("active"),
        object: Some("both.service".to_string()),
        fields: None,
    };
    parse_one_metric(&mut stats, &metric, &config, &NameSet::new())
        ;
    assert!(!stats.unit_states.contains_key("both.service"));
}

#[test]
fn test_load_state_counts_bypass_allowlist() {
    // loaded_units/masked_units/not_found_units must be counted for every unit,
    // regardless of the state_stats allowlist (matching D-Bus parse_unit() behaviour).
    let config = UnitsConfig {
        enabled: true,
        state_stats: true,
        // Only "allowed.service" is in the allowlist
        state_stats_allowlist: NameSet::from_names(vec!["allowed.service".to_string()]),
        state_stats_blocklist: NameSet::new(),
        state_stats_time_in_state: false,
        ignore_inactive_oneshot_services: true,
        unit_files: true,
        ..Default::default()
    };
    let mut stats = SystemdUnitStats::default();

    let metrics = vec![
        // allowed unit → counts AND stored in unit_states
        ListOutput {
            name: "io.systemd.Manager.UnitLoadState".to_string(),
            value: string_value("loaded"),
            object: Some("allowed.service".to_string()),
            fields: None,
        },
        // non-allowed unit → only counted, NOT stored in unit_states
        ListOutput {
            name: "io.systemd.Manager.UnitLoadState".to_string(),
            value: string_value("loaded"),
            object: Some("other.service".to_string()),
            fields: None,
        },
        ListOutput {
            name: "io.systemd.Manager.UnitLoadState".to_string(),
            value: string_value("not-found"), // systemd sends hyphenated form over the wire
            object: Some("missing.service".to_string()),
            fields: None,
        },
        ListOutput {
            name: "io.systemd.Manager.UnitLoadState".to_string(),
            value: string_value("masked"),
            object: Some("masked.service".to_string()),
            fields: None,
        },
    ];
    for m in metrics {
        parse_one_metric(&mut stats, &m, &config, &NameSet::new())
            ;
    }

    // Aggregate counts include ALL units regardless of allowlist
    assert_eq!(stats.loaded_units, 2);
    assert_eq!(stats.not_found_units, 1);
    assert_eq!(stats.masked_units, 1);
    // per-unit state only tracked for the allowed unit
    assert_eq!(stats.unit_states.len(), 1);
    assert!(stats.unit_states.contains_key("allowed.service"));
}

#[test]
fn test_load_state_counts_when_state_stats_disabled() {
    // Even when state_stats=false, aggregate load state counts must be populated.
    let config = UnitsConfig {
        enabled: true,
        state_stats: false,
        state_stats_allowlist: NameSet::new(),
        state_stats_blocklist: NameSet::new(),
        state_stats_time_in_state: false,
        ignore_inactive_oneshot_services: true,
        unit_files: true,
        ..Default::default()
    };
    let mut stats = SystemdUnitStats::default();

    let metrics = vec![
        ListOutput {
            name: "io.systemd.Manager.UnitLoadState".to_string(),
            value: string_value("loaded"),
            object: Some("svc1.service".to_string()),
            fields: None,
        },
        ListOutput {
            name: "io.systemd.Manager.UnitLoadState".to_string(),
            value: string_value("not-found"), // systemd sends hyphenated form over the wire
            object: Some("svc2.service".to_string()),
            fields: None,
        },
    ];
    for m in metrics {
        parse_one_metric(&mut stats, &m, &config, &NameSet::new())
            ;
    }

    assert_eq!(stats.loaded_units, 1);
    assert_eq!(stats.not_found_units, 1);
    // No per-unit state tracking when state_stats=false
    assert_eq!(stats.unit_states.len(), 0);
}

#[test]
fn the_total_falls_back_to_the_type_sum() {
    let mut stats = SystemdUnitStats { service_units: 86, timer_units: 2, ..Default::default() };
    apply_total_fallback(&mut stats);
    assert_eq!(stats.total_units, 88);
    let mut reported = SystemdUnitStats { service_units: 86, total_units: 196, ..Default::default() };
    apply_total_fallback(&mut reported);
    assert_eq!(reported.total_units, 196);
}

#[test]
fn units_skipped_by_the_state_lists() {
    let mut config = default_units_config();
    assert!(!should_skip_unit("a.service", &config));
    config.state_stats_allowlist = NameSet::from_names(vec!["a.service".to_string()]);
    assert!(!should_skip_unit("a.service", &config));
    assert!(should_skip_unit("b.service", &config));
    config.state_stats_blocklist = NameSet::from_names(vec!["a.service".to_string()]);
    assert!(should_skip_unit("a.service", &config));
}

#[test]
fn restart_counts_out_of_range_are_ignored() {
    let mut stats = SystemdUnitStats::default();
    let services = NameSet::from_names(vec!["x.service".to_string()]);
    let metric = ListOutput {
        name: "io.systemd.Manager.NRestarts".to_string(),
        value: int_value(-1),
        object: Some("x.service".to_string()),
        fields: None,
    };
    parse_one_metric(&mut stats, &metric, &default_units_config(), &services);
    assert!(!stats.service_stats.contains_key("x.service"));
}

#[test]
fn a_whole_stream_of_metrics() {
    let metrics = vec![
        ListOutput {
            name: "io.systemd.Manager.UnitsByTypeTotal".to_string(),
            value: int_value(3),
            object: None,
            fields: Some(fields("type", string_value("service"))),
        },
        ListOutput {
            name: "io.systemd.Manager.UnitLoadState".to_string(),
            value: string_value("loaded"),
            object: Some("a.service".to_string()),
            fields: None,
        },
        ListOutput {
            name: "io.systemd.Manager.UnitActiveState".to_string(),
            value: string_value("failed"),
            object: Some("a.service".to_string()),
            fields: None,
        },
        ListOutput {
            name: "io.systemd.Manager.UnitsByTypeTotal".to_string(),
            value: int_value(2),
            object: None,
            fields: Some(fields("type", string_value("timer"))),
        },
    ];
    let mut stats = SystemdUnitStats::default();
    parse_metric_stream(&mut stats, &metrics, &default_units_config(), &NameSet::new());
    assert_eq!(stats.service_units, 3);
    assert_eq!(stats.loaded_units, 1);
    assert!(stats.unit_states.get("a.service").unwrap().unhealthy);
    assert_eq!(stats.total_units, 0);

    let mut config = Config::default();
    config.units = default_units_config();
    let from_stream = unit_stats_from_metrics(&config, &metrics);
    // No UnitsTotal metric: the total is the sum of the type counts.
    assert_eq!(from_stream.total_units, 5);
    assert_eq!(from_stream.timer_units, 2);
}

#[test]
fn checked_type_sum_and_stream_entry() {
    let stats = SystemdUnitStats { service_units: 86, timer_units: 2, ..Default::default() };
    assert_eq!(checked_sum_units_by_type(&stats), Some(88));
    let huge = SystemdUnitStats { service_units: u64::MAX, timer_units: 1, ..Default::default() };
    assert_eq!(checked_sum_units_by_type(&huge), None);

    let config = Config::default();
    let by_type = |t: &str, n: i64| ListOutput {
        name: "io.systemd.Manager.UnitsByTypeTotal".to_string(),
        value: int_value(n),
        object: None,
        fields: Some(fields("type", string_value(t))),
    };
    let small = vec![by_type("service", 3), by_type("timer", 2)];
    let r = try_unit_stats_from_metrics(&config, &small).expect("sum fits");
    assert_eq!(r.total_units, 5);
    let big = vec![by_type("service", i64::MAX), by_type("timer", i64::MAX), by_type("socket", 2)];
    assert!(try_unit_stats_from_metrics(&config, &big).is_none());
    // With a reported total the per-type sum is never needed.
    let mut with_total = vec![by_type("service", i64::MAX), by_type("timer", i64::MAX), by_type("socket", 2)];
    with_total.push(ListOutput {
        name: "io.systemd.Manager.UnitsTotal".to_string(),
        value: int_value(7),
        object: None,
        fields: None,
    });
    let r = try_unit_stats_from_metrics(&config, &with_total).expect("total reported");
    assert_eq!(r.total_units, 7);
}
