use monitord::config::Config;
use monitord::dbus_stats::{
    filter_and_collect_cgroup_accounting, filter_and_collect_peer_accounting, group_peers_by_cgroup,
    parse_cgroup_name, CurMaxPair, DBusBrokerCGroupAccounting, DBusBrokerPeerAccounting,
    DBusBrokerUserAccounting, DBusStats,
};
use monitord::names::NameSet;
use monitord::strmap::StrMap;

fn peer(id: &str, well_known: Option<&str>, name_objects: Option<u32>) -> DBusBrokerPeerAccounting {
    DBusBrokerPeerAccounting {
        id: id.to_string(),
        well_known_name: well_known.map(|s| s.to_string()),
        name_objects,
        ..Default::default()
    }
}

#[test]
fn test_cur_max_pair_usage() {
    let p = CurMaxPair { cur: 10, max: 100 };
    assert_eq!(p.get_usage(), 90);
}

#[test]
fn test_cgroup_accounting_gating_and_skip_errors() {
    let disabled = DBusStats { dbus_broker_peer_accounting: Some(StrMap::new()), ..Default::default() };
    assert!(disabled.cgroup_accounting().is_none());

    let mut peers: StrMap<DBusBrokerPeerAccounting> = StrMap::new();
    peers.insert(
        ":1.77".to_string(),
        DBusBrokerPeerAccounting { id: ":1.77".to_string(), process_id: None, ..Default::default() },
    );

    let enabled = DBusStats { dbus_broker_peer_accounting: Some(peers), ..Default::default() };

    let cg_map = enabled.cgroup_accounting().expect("map should exist");
    assert!(cg_map.is_empty());
}

#[test]
fn test_combine_with_peer_option_summing() {
    let mut cg = DBusBrokerCGroupAccounting {
        name: "cg1".to_string(),
        name_objects: Some(5),
        match_bytes: None,
        matches: Some(3),
        reply_objects: None,
        incoming_bytes: Some(10),
        incoming_fds: None,
        outgoing_bytes: Some(7),
        outgoing_fds: Some(2),
        activation_request_bytes: None,
        activation_request_fds: Some(1),
    };

    let peer = DBusBrokerPeerAccounting {
        id: ":1.1".to_string(),
        well_known_name: Some("com.example".to_string()),
        unix_user_id: Some(1000),
        process_id: Some(1234),
        unix_group_ids: Some(vec![1000]),
        name_objects: Some(2),
        match_bytes: Some(4),
        matches: None,
        reply_objects: Some(1),
        incoming_bytes: None,
        incoming_fds: Some(5),
        outgoing_bytes: Some(3),
        outgoing_fds: None,
        activation_request_bytes: Some(8),
        activation_request_fds: None,
    };

    cg.combine_with_peer(&peer);

    assert_eq!(cg.name_objects, Some(7));
    assert_eq!(cg.match_bytes, Some(4));
    assert_eq!(cg.matches, Some(3));
    assert_eq!(cg.reply_objects, Some(1));
    assert_eq!(cg.incoming_bytes, Some(10));
    assert_eq!(cg.incoming_fds, Some(5));
    assert_eq!(cg.outgoing_bytes, Some(10));
    assert_eq!(cg.outgoing_fds, Some(2));
    assert_eq!(cg.activation_request_bytes, Some(8));
    assert_eq!(cg.activation_request_fds, Some(1));
}

#[test]
fn test_user_metric_name_fallback() {
    // A uid the user database does not know is named by its decimal uid.
    let mut user = DBusBrokerUserAccounting::new(999_999, None);
    user.bytes = Some(CurMaxPair { cur: 5, max: 10 });
    assert_eq!(&user.username, "999999");
}

#[test]
fn a_known_user_keeps_its_name() {
    let user = DBusBrokerUserAccounting::new(0, Some("root".to_string()));
    assert_eq!(user.username, "root");
    assert_eq!(user.uid, 0);
    assert!(user.bytes.is_none());
}

#[test]
fn usage_wraps_like_the_broker_counters() {
    assert_eq!(CurMaxPair { cur: 0, max: 0 }.get_usage(), 0);
    // cur above max wraps around rather than panicking.
    assert_eq!(CurMaxPair { cur: 1, max: 0 }.get_usage(), u32::MAX);
}

#[test]
fn combining_wraps_on_overflow() {
    let mut cg = DBusBrokerCGroupAccounting::named("cg".to_string());
    cg.name_objects = Some(u32::MAX);
    cg.combine_with_peer(&peer(":1.2", None, Some(2)));
    assert_eq!(cg.name_objects, Some(1));
    assert_eq!(cg.match_bytes, None);
}

#[test]
fn peer_names_prefer_the_well_known_name() {
    let anonymous = peer(":1.5", None, None);
    assert!(!anonymous.has_well_known_name());
    assert_eq!(anonymous.get_name(), ":1.5");
    let named = peer(":1.6", Some("org.freedesktop.systemd1"), None);
    assert!(named.has_well_known_name());
    assert_eq!(named.get_name(), "org.freedesktop.systemd1");
}

#[test]
fn cgroup_names_from_proc_files() {
    assert_eq!(parse_cgroup_name("0::/system.slice/sshd.service\n"), Some("system.slice-sshd.service".to_string()));
    assert_eq!(parse_cgroup_name("0::/\n"), Some(String::new()));
    assert_eq!(parse_cgroup_name("1:name=systemd:/init.scope\n"), None);
}

#[test]
fn peers_are_filtered_by_the_config() {
    let mut config = Config::default();
    let sample = || {
        vec![
            peer(":1.1", Some("com.example.a"), Some(1)),
            peer(":1.2", None, Some(2)),
            peer(":1.3", Some("com.example.b"), Some(3)),
        ]
    };
    // Peer stats off: no map at all.
    config.dbus_stats.peer_stats = false;
    assert!(filter_and_collect_peer_accounting(&config, Some(sample())).is_none());

    config.dbus_stats.peer_stats = true;
    assert!(filter_and_collect_peer_accounting(&config, None).is_none());
    let all = filter_and_collect_peer_accounting(&config, Some(sample())).unwrap();
    assert_eq!(all.len(), 3);

    // Well-known names only drops the anonymous peer; the blocklist matches
    // on the well-known name.
    config.dbus_stats.peer_well_known_names_only = true;
    config.dbus_stats.peer_blocklist = NameSet::from_names(vec!["com.example.b".to_string()]);
    let some = filter_and_collect_peer_accounting(&config, Some(sample())).unwrap();
    assert_eq!(some.len(), 1);
    assert!(some.contains_key(":1.1"));

    // The allowlist matches on the unique name too.
    config.dbus_stats.peer_well_known_names_only = false;
    config.dbus_stats.peer_blocklist = NameSet::new();
    config.dbus_stats.peer_allowlist = NameSet::from_names(vec![":1.2".to_string()]);
    let one = filter_and_collect_peer_accounting(&config, Some(sample())).unwrap();
    assert_eq!(one.len(), 1);
    assert_eq!(one.get(":1.2").unwrap().name_objects, Some(2));
}

#[test]
fn peers_are_grouped_by_cgroup() {
    let peers = vec![
        peer(":1.1", None, Some(1)),
        peer(":1.2", None, Some(2)),
        peer(":1.3", None, Some(4)),
        peer(":1.4", None, Some(8)),
    ];
    let mut cgroups: StrMap<String> = StrMap::new();
    cgroups.insert(":1.1".to_string(), "system.slice-a.service".to_string());
    cgroups.insert(":1.2".to_string(), "system.slice-a.service".to_string());
    cgroups.insert(":1.3".to_string(), "system.slice-b.service".to_string());
    // :1.4 has no known cgroup and is skipped.
    let grouped = group_peers_by_cgroup(&peers, &cgroups, &NameSet::new(), &NameSet::new());
    assert_eq!(grouped.len(), 2);
    let a = grouped.get("system.slice-a.service").unwrap();
    assert_eq!(a.name, "system.slice-a.service");
    assert_eq!(a.name_objects, Some(3));
    assert_eq!(grouped.get("system.slice-b.service").unwrap().name_objects, Some(4));

    let mut config = Config::default();
    config.dbus_stats.cgroup_stats = false;
    assert!(filter_and_collect_cgroup_accounting(&config, Some(&peers), &cgroups).is_none());
    config.dbus_stats.cgroup_stats = true;
    config.dbus_stats.cgroup_blocklist = NameSet::from_names(vec!["system.slice-b.service".to_string()]);
    let filtered = filter_and_collect_cgroup_accounting(&config, Some(&peers), &cgroups).unwrap();
    assert_eq!(filtered.len(), 1);
    assert!(filtered.contains_key("system.slice-a.service"));
}
