use monitord::names::NameSet;
use monitord::varlink::metrics::{ListOutput, MetricValue};
use monitord::varlink_verify::{collect_unit_names, UnitEnumerationError};
use monitord::verify::{get_unit_type, record_verify_result, should_verify, VerifyStats};

#[test]
fn test_get_unit_type() {
    assert_eq!(get_unit_type("foo.service"), Some("service".to_string()));
    assert_eq!(get_unit_type("bar.slice"), Some("slice".to_string()));
    assert_eq!(get_unit_type("baz.timer"), Some("timer".to_string()));
    assert_eq!(get_unit_type("test"), Some("test".to_string()));
}

#[test]
fn test_verify_stats_default() {
    let stats = VerifyStats::default();
    assert_eq!(stats.total, 0);
    assert_eq!(stats.by_type.len(), 0);
}

#[test]
fn failures_are_counted_by_type() {
    let mut stats = VerifyStats::default();
    record_verify_result(&mut stats, "a.service", true);
    record_verify_result(&mut stats, "b.service", true);
    record_verify_result(&mut stats, "c.timer", true);
    record_verify_result(&mut stats, "d.timer", false);
    assert_eq!(stats.total, 3);
    assert_eq!(stats.by_type.get("service"), Some(&2));
    assert_eq!(stats.by_type.get("timer"), Some(&1));
    assert_eq!(stats.by_type.len(), 2);
}

#[test]
fn verify_lists() {
    let allow = NameSet::from_names(vec!["a.service".to_string()]);
    let block = NameSet::from_names(vec!["b.service".to_string()]);
    assert!(should_verify(&NameSet::new(), &NameSet::new(), "x.service"));
    assert!(should_verify(&allow, &block, "a.service"));
    assert!(!should_verify(&allow, &block, "x.service"));
    assert!(!should_verify(&NameSet::new(), &block, "b.service"));
}

fn metric(unit: Option<&str>, load_state: MetricValue) -> ListOutput {
    ListOutput {
        name: "io.systemd.Manager.UnitLoadState".to_string(),
        value: load_state,
        object: unit.map(|unit| unit.to_string()),
        fields: None,
    }
}

fn loaded(unit: &str) -> ListOutput {
    metric(Some(unit), MetricValue::Str("loaded".to_string()))
}

#[test]
fn test_collects_every_object_whatever_its_load_state() {
    let mut metrics = vec![
        loaded("b.service"),
        loaded("a.service"),
        metric(Some("masked.service"), MetricValue::Str("masked".to_string())),
        metric(Some("ghost.service"), MetricValue::Str("not-found".to_string())),
        // Duplicates collapse: ListUnits never repeats a name either.
        loaded("a.service"),
    ];

    // A different family sharing the stream must not leak names in.
    metrics.push(ListOutput {
        name: "io.systemd.Manager.UnitActiveState".to_string(),
        value: MetricValue::Str("active".to_string()),
        object: Some("active-only.service".to_string()),
        fields: None,
    });

    assert_eq!(
        collect_unit_names(&metrics).expect("valid family collects"),
        vec![
            "a.service".to_string(),
            "b.service".to_string(),
            "ghost.service".to_string(),
            "masked.service".to_string(),
        ]
    );
}

#[test]
fn test_skipped_family_members_reject_enumeration() {
    for metrics in [
        vec![loaded("good.service"), metric(None, MetricValue::Str("loaded".to_string()))],
        vec![loaded("good.service"), metric(Some("odd.service"), MetricValue::Int(3))],
        vec![loaded("good.service"), metric(Some("other.service"), MetricValue::Other)],
    ] {
        let err = collect_unit_names(&metrics).expect_err("skips must bail");
        assert!(err.message().contains("skipped"), "unexpected error: {}", err.message());
    }
}

#[test]
fn test_missing_family_is_rejected() {
    let without_family = vec![ListOutput {
        name: "io.systemd.Manager.UnitsTotal".to_string(),
        value: MetricValue::Int(295),
        object: None,
        fields: None,
    }];
    let err = collect_unit_names(&without_family).expect_err("missing family must bail");
    assert!(err.message().contains("no UnitLoadState family"), "unexpected error: {}", err.message());

    assert!(collect_unit_names(&[loaded("foo.service")]).is_ok());
}

#[test]
fn skipped_members_are_counted() {
    let metrics = vec![
        metric(None, MetricValue::Str("loaded".to_string())),
        loaded("a.service"),
        metric(Some("b.service"), MetricValue::Int(1)),
    ];
    let err = collect_unit_names(&metrics).unwrap_err();
    assert_eq!(err, UnitEnumerationError::SkippedMembers(2));
    assert_eq!(
        err.message(),
        "2 UnitLoadState metrics skipped (missing object or non-string state), cannot trust enumeration"
    );
}

#[test]
fn names_sort_by_code_point() {
    let metrics = vec![loaded("b"), loaded("B"), loaded("a.service"), loaded("a"), loaded("é"), loaded("z")];
    assert_eq!(
        collect_unit_names(&metrics).unwrap(),
        vec!["B".to_string(), "a".to_string(), "a.service".to_string(), "b".to_string(), "z".to_string(), "é".to_string()]
    );
}
