use monitord::config::{
    unknown_config_entries, BootBlameConfig, Config, DBusStatsConfig, MachinesConfig, MonitordConfig,
    MonitordConfigError, MonitordOutputFormat, NetworkdConfig, Pid1Config, SystemStateConfig, TimersConfig,
    UnitsConfig, VarlinkConfig, VerifyConfig,
};
use monitord::ini::IniData;
use monitord::names::NameSet;

const FULL_CONFIG: &str = r###"
[monitord]
dbus_address = unix:path=/system_bus_socket
dbus_timeout = 2
daemon = true
daemon_stats_refresh_secs = 0
key_prefix = unittest
output_format = json-pretty

[networkd]
enabled = true
varlink = false
link_state_dir = /links

[pid1]
enabled = true

[services]
foo.service
bar.service

[system-state]
enabled = true
varlink = false

[timers]
enabled = true

[timers.allowlist]
foo.timer

[timers.blocklist]
bar.timer

[units]
enabled = true
varlink = false
state_stats = true
state_stats_time_in_state = true
ignore_inactive_oneshot_services = true
unit_files = true
per_unit_concurrency = 16
slowest_units_count = 3

[units.state_stats.allowlist]
foo.service

[units.state_stats.blocklist]
bar.service

[machines]
enabled = true
varlink = false

[machines.allowlist]
foo
bar

[machines.blocklist]
foo2

[dbus]
enabled = true
stale_fd_stats = true
user_stats = true
peer_stats = true
peer_well_known_names_only = true
peer_name_concurrency = 12
cgroup_stats = true

[dbus.user.allowlist]
foo
bar

[dbus.user.blocklist]
foo2

[dbus.peer.allowlist]
foo
bar

[dbus.peer.blocklist]
foo2

[dbus.cgroup.allowlist]
foo
bar

[dbus.cgroup.blocklist]
foo2

[boot]
enabled = true
varlink = true
cache_enabled = false
cache_dir = /tmp/monitord-test
num_slowest_units = 10

[boot.allowlist]
foo.service

[boot.blocklist]
bar.service

[varlink]
enabled = true
"###;

const MINIMAL_CONFIG: &str = r###"
[monitord]
output_format = json-flat
"###;

fn names(v: &[&str]) -> NameSet {
    NameSet::from_names(v.iter().map(|s| s.to_string()).collect())
}

fn parse(text: &str) -> Result<Config, MonitordConfigError> {
    let ini = IniData::parse(text.to_string()).expect("Unable to load ini config");
    Config::try_from(&ini)
}

#[test]
fn test_default_config() {
    assert!(Config::default().units.enabled);
    // Per-section varlink toggles default to following the global switch
    let default_config = Config::default();
    assert!(default_config.units.varlink);
    assert!(default_config.networkd.varlink);
    assert!(default_config.system_state.varlink);
    assert!(default_config.machines.varlink);
    assert!(default_config.boot_blame.varlink);
}

#[test]
fn test_minimal_config() {
    let expected_config = parse(MINIMAL_CONFIG).expect("Failed to parse config");
    // See our one setting is not the default 'json' enum value
    assert_eq!(expected_config.monitord.output_format, MonitordOutputFormat::JsonFlat);
    // See that one of the enabled bools are false
    assert!(!expected_config.networkd.enabled);
    // Boot cache defaults to enabled when not explicitly configured
    assert!(expected_config.boot_blame.cache_enabled);
    // Oneshot inactive services are ignored by default
    assert!(expected_config.units.ignore_inactive_oneshot_services);
}

#[test]
fn test_units_ignore_inactive_oneshot_services_override() {
    let units_override_config = r###"
[monitord]
output_format = json

[units]
ignore_inactive_oneshot_services = false
"###;
    let parsed_config = parse(units_override_config).expect("Failed to parse config");
    assert!(!parsed_config.units.ignore_inactive_oneshot_services);
}

#[test]
fn test_units_per_unit_concurrency_override() {
    let units_override_config = r###"
[monitord]
output_format = json

[units]
per_unit_concurrency = 32
slowest_units_count = 0
"###;
    let parsed_config = parse(units_override_config).expect("Failed to parse config");
    assert_eq!(parsed_config.units.per_unit_concurrency, 32);
    assert_eq!(parsed_config.units.slowest_units_count, 0);
}

#[test]
fn test_use_varlink_conjunction() {
    let mut config = Config::default();
    assert!(!config.use_varlink(&[true]));
    config.varlink.enabled = true;
    assert!(config.use_varlink(&[true]));
    assert!(!config.use_varlink(&[false]));
    assert!(!config.use_varlink(&[true, false]));
    assert!(config.use_varlink(&[true, true]));
    config.varlink.enabled = false;
    assert!(!config.use_varlink(&[true, true]));
}

#[test]
fn test_unknown_config_entries() {
    let typo_config = r###"
[monitord]
output_format = json

[units]
varlnik = false

[timers]
varlink = false

[services]
foo.service

[bogus]
key = value
"###;
    let ini = IniData::parse(typo_config.to_string()).expect("Unable to load ini config");
    let unknown = unknown_config_entries(&ini);
    assert!(unknown.contains(&"unknown key 'varlnik' in [units]".to_string()));
    assert!(unknown.contains(&"unknown key 'varlink' in [timers]".to_string()));
    assert!(unknown.contains(&"unknown section [bogus]".to_string()));
    assert_eq!(unknown.len(), 3);
}

#[test]
fn test_per_section_varlink_toggle_defaults_and_override() {
    let varlink_override_config = r###"
[monitord]
output_format = json

[varlink]
enabled = true

[units]
varlink = false
"###;
    let parsed_config = parse(varlink_override_config).expect("Failed to parse config");
    assert!(parsed_config.varlink.enabled);
    assert!(!parsed_config.units.varlink);
    assert!(parsed_config.networkd.varlink);
    assert!(parsed_config.system_state.varlink);
    assert!(parsed_config.machines.varlink);
    assert!(parsed_config.boot_blame.varlink);
}

#[test]
fn test_full_config() {
    let expected_config = Config {
        monitord: MonitordConfig {
            dbus_address: String::from("unix:path=/system_bus_socket"),
            daemon: true,
            daemon_stats_refresh_secs: u64::MIN,
            key_prefix: String::from("unittest"),
            output_format: MonitordOutputFormat::JsonPretty,
            dbus_timeout: 2 as u64,
        },
        networkd: NetworkdConfig { enabled: true, varlink: false, link_state_dir: "/links".into() },
        pid1: Pid1Config { enabled: true },
        services: names(&["foo.service", "bar.service"]),
        system_state: SystemStateConfig { enabled: true, varlink: false },
        timers: TimersConfig { enabled: true, allowlist: names(&["foo.timer"]), blocklist: names(&["bar.timer"]) },
        units: UnitsConfig {
            enabled: true,
            varlink: false,
            state_stats: true,
            state_stats_allowlist: names(&["foo.service"]),
            state_stats_blocklist: names(&["bar.service"]),
            state_stats_time_in_state: true,
            ignore_inactive_oneshot_services: true,
            unit_files: true,
            per_unit_concurrency: 16,
            slowest_units_count: 3,
        },
        machines: MachinesConfig {
            enabled: true,
            varlink: false,
            allowlist: names(&["foo", "bar"]),
            blocklist: names(&["foo2"]),
        },
        dbus_stats: DBusStatsConfig {
            enabled: true,
            stale_fd_stats: true,
            user_stats: true,
            user_allowlist: names(&["foo", "bar"]),
            user_blocklist: names(&["foo2"]),
            peer_stats: true,
            peer_well_known_names_only: true,
            peer_allowlist: names(&["foo", "bar"]),
            peer_blocklist: names(&["foo2"]),
            peer_name_concurrency: 12,
            cgroup_stats: true,
            cgroup_allowlist: names(&["foo", "bar"]),
            cgroup_blocklist: names(&["foo2"]),
        },
        boot_blame: BootBlameConfig {
            enabled: true,
            varlink: true,
            cache_enabled: false,
            cache_dir: "/tmp/monitord-test".to_string(),
            num_slowest_units: 10,
            allowlist: names(&["foo.service"]),
            blocklist: names(&["bar.service"]),
        },
        verify: VerifyConfig { enabled: false, allowlist: NameSet::new(), blocklist: NameSet::new() },
        varlink: VarlinkConfig { enabled: true },
    };
    let actual_config = parse(FULL_CONFIG).expect("Failed to parse config");
    assert_eq!(expected_config, actual_config);
}

#[test]
fn test_invalid_config_returns_error() {
    let invalid_config = "[monitord]\ndaemon = notabool\noutput_format = json\n";
    let result = parse(invalid_config);
    assert!(result.is_err());
}

#[test]
fn an_invalid_value_names_its_section_and_key() {
    match parse("[monitord]\ndaemon = notabool\noutput_format = json\n") {
        Err(MonitordConfigError::InvalidValue { section, key, .. }) => {
            assert_eq!(section, "monitord");
            assert_eq!(key, "daemon");
        }
        other => panic!("unexpected: {other:?}"),
    }
}

#[test]
fn a_missing_output_format_is_an_error() {
    match parse("[monitord]\ndaemon = false\n") {
        Err(MonitordConfigError::MissingKey { section, key }) => {
            assert_eq!(section, "monitord");
            assert_eq!(key, "output_format");
        }
        other => panic!("unexpected: {other:?}"),
    }
}

#[test]
fn output_format_spellings() {
    assert_eq!(
        parse("[monitord]\noutput_format = json\n").unwrap().monitord.output_format,
        MonitordOutputFormat::Json
    );
    assert_eq!(
        parse("[monitord]\noutput_format = json-pretty\n").unwrap().monitord.output_format,
        MonitordOutputFormat::JsonPretty
    );
    assert!(parse("[monitord]\noutput_format = yaml\n").is_err());
}

#[test]
fn absent_enabled_flags_read_as_false() {
    // A flag without a value is taken as false, whatever its default.
    let parsed = parse("[monitord]\noutput_format = json\n").unwrap();
    assert!(Config::default().pid1.enabled);
    assert!(!parsed.pid1.enabled);
    assert!(!parsed.units.enabled);
    // Keys that are not flags keep their defaults.
    assert_eq!(parsed.monitord.dbus_timeout, 30);
    assert!(parsed.units.varlink);
}
