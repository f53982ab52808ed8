use std::collections::HashMap;

use monitord::config::BootBlameConfig;
use monitord::names::NameSet;
use monitord::strmap::StrMap;
use monitord::varlink::metrics::{ListOutput, MetricValue};
use monitord::varlink_boot::{
    activation_usec, boot_blame_from_metrics, collect_activations, has_activation_metrics, rank_slowest,
    UnitActivation, VarlinkBootError,
};

fn metric(name: &str, unit: &str, value: i64, event: Option<&str>) -> ListOutput {
    ListOutput {
        name: format!("io.systemd.Manager.{name}"),
        value: MetricValue::Int(value),
        object: Some(unit.to_string()),
        fields: event.map(|event| {
            let mut f = StrMap::new();
            f.insert("event".to_string(), MetricValue::Str(event.to_string()));
            f
        }),
    }
}

fn unit_metrics(unit: &str, inactive_exit: i64, active_enter: i64) -> Vec<ListOutput> {
    vec![
        metric("InactiveExitTimestamp", unit, inactive_exit, None),
        metric("ActiveTimestamp", unit, active_enter, Some("enter")),
        // systemd emits the exit event too; it must not be mistaken for the
        // enter one, which would invert the calculation.
        metric("ActiveTimestamp", unit, 0, Some("exit")),
    ]
}

fn config() -> BootBlameConfig {
    BootBlameConfig { enabled: true, num_slowest_units: 5, ..Default::default() }
}

/// The ranked units in seconds, as the collector reports them.
fn seconds(ranked: &[(String, u64)]) -> HashMap<String, f64> {
    ranked.iter().map(|(name, usec)| (name.clone(), *usec as f64 / 1_000_000.0)).collect()
}

#[test]
fn test_ranks_slowest_units_first() {
    let mut metrics = unit_metrics("slow.service", 1_000_000, 4_000_000);
    metrics.extend(unit_metrics("quick.service", 1_000_000, 1_500_000));
    metrics.extend(unit_metrics("middling.service", 1_000_000, 3_000_000));

    let ranked = rank_slowest(&collect_activations(&metrics, &config()), 5);
    let stats = seconds(&ranked);

    assert_eq!(stats.len(), 3);
    assert_eq!(stats.get("slow.service"), Some(&3.0));
    assert_eq!(stats.get("middling.service"), Some(&2.0));
    assert_eq!(stats.get("quick.service"), Some(&0.5));
    // Slowest first.
    let order: Vec<&str> = ranked.iter().map(|(n, _)| n.as_str()).collect();
    assert_eq!(order, vec!["slow.service", "middling.service", "quick.service"]);
}

#[test]
fn test_truncates_to_the_configured_count() {
    let mut metrics = unit_metrics("a.service", 1_000_000, 9_000_000);
    metrics.extend(unit_metrics("b.service", 1_000_000, 5_000_000));
    metrics.extend(unit_metrics("c.service", 1_000_000, 2_000_000));

    let stats = seconds(&rank_slowest(&collect_activations(&metrics, &config()), 2));

    assert_eq!(stats.len(), 2);
    assert!(stats.contains_key("a.service"));
    assert!(stats.contains_key("b.service"));
    assert!(!stats.contains_key("c.service"));
}

#[test]
fn test_units_that_never_activated_are_dropped() {
    let mut metrics = unit_metrics("never-ran.service", 0, 0);
    metrics.extend(unit_metrics("no-enter.service", 1_000_000, 0));
    metrics.extend(unit_metrics("no-exit.service", 0, 4_000_000));
    metrics.extend(unit_metrics("instant.service", 1_000_000, 1_000_000));

    let stats = seconds(&rank_slowest(&collect_activations(&metrics, &config()), 5));

    assert!(stats.is_empty(), "got {stats:?}");
}

#[test]
fn test_pre_v261_metrics_are_rejected() {
    let v260_shaped = vec![ListOutput {
        name: "io.systemd.Manager.UnitsTotal".to_string(),
        value: MetricValue::Int(295),
        object: None,
        fields: None,
    }];
    assert!(!has_activation_metrics(&v260_shaped));

    assert!(has_activation_metrics(&unit_metrics("foo.service", 1_000_000, 2_000_000)));
}

#[test]
fn test_allowlist_and_blocklist() {
    let mut metrics = unit_metrics("wanted.service", 1_000_000, 3_000_000);
    metrics.extend(unit_metrics("blocked.service", 1_000_000, 9_000_000));
    metrics.extend(unit_metrics("unlisted.service", 1_000_000, 8_000_000));

    let blocked = BootBlameConfig { blocklist: NameSet::from_names(vec!["blocked.service".to_string()]), ..config() };
    let stats = seconds(&rank_slowest(&collect_activations(&metrics, &blocked), 5));
    assert!(!stats.contains_key("blocked.service"));
    assert!(stats.contains_key("unlisted.service"));

    let allowed = BootBlameConfig { allowlist: NameSet::from_names(vec!["wanted.service".to_string()]), ..config() };
    let stats = seconds(&rank_slowest(&collect_activations(&metrics, &allowed), 5));
    assert_eq!(stats.len(), 1);
    assert!(stats.contains_key("wanted.service"));
}

#[test]
fn activation_times() {
    let a = |enter, exit| UnitActivation { active_enter_usec: enter, inactive_exit_usec: exit };
    assert_eq!(activation_usec(a(5, 2)), 3);
    assert_eq!(activation_usec(a(0, 2)), 0);
    assert_eq!(activation_usec(a(5, 0)), 0);
    // Entering before leaving inactive gives no time rather than wrapping.
    assert_eq!(activation_usec(a(2, 5)), 0);
}

#[test]
fn negative_and_non_integer_values_are_skipped() {
    let metrics = vec![
        metric("InactiveExitTimestamp", "x.service", -5, None),
        ListOutput {
            name: "io.systemd.Manager.ActiveTimestamp".to_string(),
            value: MetricValue::Str("soon".to_string()),
            object: Some("x.service".to_string()),
            fields: None,
        },
        metric("InactiveExitTimestamp", "y.service", 7, None),
    ];
    let acts = collect_activations(&metrics, &config());
    assert_eq!(acts.len(), 1);
    assert_eq!(acts.get("y.service"), Some(&UnitActivation { active_enter_usec: 0, inactive_exit_usec: 7 }));
}

#[test]
fn boot_blame_from_a_stream() {
    let mut metrics = unit_metrics("a.service", 1, 11);
    metrics.extend(unit_metrics("b.service", 1, 21));
    let cfg = BootBlameConfig { num_slowest_units: 1, ..config() };
    assert_eq!(boot_blame_from_metrics(&metrics, &cfg), Ok(vec![("b.service".to_string(), 20)]));
    let old = vec![metric("InactiveExitTimestamp", "a.service", 1, None)];
    let err = boot_blame_from_metrics(&old, &cfg).unwrap_err();
    assert_eq!(err, VarlinkBootError::NoActivationMetrics);
    assert!(err.message().contains("v261"));
}
