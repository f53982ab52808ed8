use monitord::config::{Config, UnitsConfig};
use monitord::names::NameSet;
use monitord::strmap::StrMap;
use monitord::unit_constants::{SystemdUnitActiveState, SystemdUnitLoadState};
use monitord::units::{
    count_listed_units, count_unit_files_by_type, merge_counts, parse_state, parse_unit, time_in_state, unit_work, ListedUnit,
    SystemdUnitStats, UnitCounters, UnitStates, UnitWork,
};

fn get_unit_file() -> ListedUnit {
    ListedUnit {
        name: String::from("apport-autoreport.timer"),
        description: String::from("Process error reports when automatic reporting is enabled (timer based)"),
        load_state: String::from("loaded"),
        active_state: String::from("inactive"),
        sub_state: String::from("dead"),
        follow_unit: String::from(""),
        unit_object_path: String::from("/org/freedesktop/systemd1/unit/apport_2dautoreport_2etimer"),
        job_id: 0,
        job_type: String::from(""),
        job_object_path: String::from("/"),
    }
}

fn counters(stats: &SystemdUnitStats) -> UnitCounters {
    UnitCounters::from_stats(stats)
}

#[test]
fn test_state_parse() {
    let test_unit_name = String::from("apport-autoreport.timer");
    let expected_state = UnitStates {
        active_state: SystemdUnitActiveState::inactive,
        load_state: SystemdUnitLoadState::loaded,
        unhealthy: true,
        time_in_state_usecs: None,
    };
    let mut stats = SystemdUnitStats::default();
    let systemd_unit = get_unit_file();
    let mut config = UnitsConfig::default();

    // No allow list or blocklist: the unit's state is recorded.
    assert!(parse_state(&mut stats, &systemd_unit, &config, None));
    assert_eq!(counters(&stats), counters(&SystemdUnitStats::default()));
    assert_eq!(stats.unit_states.len(), 1);
    assert_eq!(stats.unit_states.get(&test_unit_name), Some(&expected_state));

    // An allow list that names the unit: the same.
    config.state_stats_allowlist = NameSet::from_names(vec![test_unit_name.clone()]);
    let mut allowlist_stats = SystemdUnitStats::default();
    assert!(parse_state(&mut allowlist_stats, &systemd_unit, &config, None));
    assert_eq!(allowlist_stats.unit_states.get(&test_unit_name), Some(&expected_state));

    // The blocklist wins over the allow list.
    config.state_stats_blocklist = NameSet::from_names(vec![test_unit_name]);
    let mut blocklist_stats = SystemdUnitStats::default();
    assert!(!parse_state(&mut blocklist_stats, &systemd_unit, &config, None));
    assert!(blocklist_stats.unit_states.is_empty());
    assert_eq!(counters(&blocklist_stats), counters(&SystemdUnitStats::default()));
}

#[test]
fn test_unit_parse() {
    let mut expected_stats = SystemdUnitStats::default();
    expected_stats.inactive_units = 1;
    expected_stats.loaded_units = 1;
    expected_stats.timer_units = 1;
    let mut stats = SystemdUnitStats::default();
    let systemd_unit = get_unit_file();
    parse_unit(&mut stats, &systemd_unit);
    assert_eq!(counters(&expected_stats), counters(&stats));
    assert!(stats.unit_states.is_empty());
}

#[test]
fn test_unit_parse_activating() {
    let mut activating_unit = get_unit_file();
    activating_unit.active_state = String::from("activating");
    let mut stats = SystemdUnitStats::default();
    parse_unit(&mut stats, &activating_unit);
    assert_eq!(stats.activating_units, 1);
    assert_eq!(stats.active_units, 0);
    assert_eq!(stats.inactive_units, 0);
}

#[test]
fn units_test_iterators() {
    assert!(SystemdUnitActiveState::all().len() > 0);
    assert!(SystemdUnitLoadState::all().len() > 0);
}

#[test]
fn test_count_unit_files_by_type() {
    // The files of a unit directory (its subdirectories are not listed).
    let names: Vec<String> =
        ["sshd.service", "nginx.service", "boot.mount", "swap.swap"].iter().map(|s| s.to_string()).collect();
    let counts = count_unit_files_by_type(&names);
    assert_eq!(counts.get("service"), Some(&2));
    assert_eq!(counts.get("mount"), Some(&1));
    assert_eq!(counts.get("swap"), Some(&1));
    assert_eq!(counts.get("wants"), None);
    assert_eq!(counts.len(), 3);
}

#[test]
fn test_count_unit_files_by_type_nonexistent_dir() {
    // A directory that cannot be read lists no files.
    let counts = count_unit_files_by_type(&vec![]);
    assert!(counts.is_empty());
}

#[test]
fn masked_and_not_found_units_are_counted() {
    let mut stats = SystemdUnitStats::default();
    let mut u = get_unit_file();
    u.name = "a.service".to_string();
    u.load_state = "masked".to_string();
    u.active_state = "failed".to_string();
    u.job_id = 7;
    parse_unit(&mut stats, &u);
    let mut v = get_unit_file();
    v.name = "b.socket".to_string();
    v.load_state = "not-found".to_string();
    v.active_state = "active".to_string();
    parse_unit(&mut stats, &v);
    assert_eq!(stats.masked_units, 1);
    assert_eq!(stats.not_found_units, 1);
    assert_eq!(stats.failed_units, 1);
    assert_eq!(stats.active_units, 1);
    assert_eq!(stats.service_units, 1);
    assert_eq!(stats.socket_units, 1);
    assert_eq!(stats.jobs_queued, 1);
}

#[test]
fn times_in_state() {
    assert_eq!(time_in_state(10, 4_000_000), 6_000_000);
    assert_eq!(time_in_state(10, 10_000_000), 0);
}

#[test]
fn counts_merge_key_by_key() {
    let mut a = StrMap::new();
    a.insert("service".to_string(), 2);
    a.insert("mount".to_string(), 1);
    let mut b = StrMap::new();
    b.insert("service".to_string(), 3);
    b.insert("scope".to_string(), 4);
    merge_counts(&mut a, b);
    assert_eq!(a.get("service"), Some(&5));
    assert_eq!(a.get("mount"), Some(&1));
    assert_eq!(a.get("scope"), Some(&4));
    assert_eq!(a.len(), 3);
}

#[test]
fn per_unit_work() {
    let mut config = Config::default();
    config.services = NameSet::from_names(vec!["sshd.service".to_string()]);
    assert_eq!(
        unit_work(&config, "sshd.service"),
        UnitWork { state: false, service: true, timer: false }
    );
    assert_eq!(unit_work(&config, "logrotate.timer"), UnitWork { state: false, service: false, timer: true });
    config.timers.blocklist = NameSet::from_names(vec!["logrotate.timer".to_string()]);
    config.units.state_stats = true;
    assert_eq!(unit_work(&config, "logrotate.timer"), UnitWork { state: true, service: false, timer: false });
    config.timers.enabled = false;
    assert_eq!(unit_work(&config, "fstrim.timer"), UnitWork { state: true, service: false, timer: false });
}

#[test]
fn listed_units_are_counted_in_turn() {
    let timer = get_unit_file();
    let mut service = get_unit_file();
    service.name = String::from("sshd.service");
    service.active_state = String::from("active");
    service.job_id = 7;
    let mut missing = get_unit_file();
    missing.name = String::from("gone.service");
    missing.load_state = String::from("not-found");
    missing.active_state = String::from("failed");
    let mut stats = SystemdUnitStats::default();
    count_listed_units(&mut stats, &vec![timer, service, missing]);
    let c = counters(&stats);
    assert_eq!(c.total_units, 3);
    assert_eq!(c.timer_units, 1);
    assert_eq!(c.service_units, 2);
    assert_eq!(c.loaded_units, 2);
    assert_eq!(c.not_found_units, 1);
    assert_eq!(c.inactive_units, 1);
    assert_eq!(c.active_units, 1);
    assert_eq!(c.failed_units, 1);
    assert_eq!(c.jobs_queued, 1);
    assert!(stats.unit_states.is_empty());
}
