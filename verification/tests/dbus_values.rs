use monitord::config::Config;
use monitord::dbus_stats::CurMaxPair;
use monitord::dbus_values::{
    filter_users, get_u32, get_u32_vec, parse_peer_accounting, parse_peer_struct, parse_user_accounting,
    parse_user_struct, BusValue,
};
use monitord::dbus_stats::DBusBrokerUserAccounting;
use monitord::names::NameSet;
use monitord::strmap::StrMap;

fn s(v: &str) -> BusValue {
    BusValue::Str(v.to_string())
}

fn quota(name: &str, cur: u32, max: u32) -> BusValue {
    BusValue::Structure(vec![s(name), BusValue::U32(cur), BusValue::U32(max)])
}

#[test]
fn test_parse_user_accounting_gating_and_parse() {
    // When user_stats=false, should return None
    let mut cfg = Config::default();
    cfg.dbus_stats.user_stats = false;
    let empty_val = BusValue::Array(Vec::new());
    assert!(parse_user_accounting(&cfg, &empty_val).is_none());

    // When user_stats=true, empty array should return Some(empty map)
    cfg.dbus_stats.user_stats = true;
    let parsed = parse_user_accounting(&cfg, &empty_val).expect("should parse empty");
    assert_eq!(parsed.len(), 0);

    // Non-array input should return None
    let non_array = BusValue::U32(0);
    assert!(parse_user_accounting(&cfg, &non_array).is_none());
}

#[test]
fn test_parse_user_struct_invalid_returns_none() {
    // An invalid structure (wrong field types/order) gives None
    let invalid = BusValue::Structure(vec![s("not_uid"), BusValue::U32(10), BusValue::U32(20)]);
    assert!(parse_user_struct(&invalid).is_none());
}

#[test]
fn user_quotas_are_read() {
    let user = BusValue::Structure(vec![
        BusValue::U32(999_999),
        BusValue::Array(vec![
            quota("Bytes", 536_843_240, 536_870_912),
            quota("Fds", 10, 20),
            quota("Unknown", 1, 2),
            BusValue::U32(7),
            quota("Objects", 3, 4),
        ]),
        BusValue::Array(vec![]),
    ]);
    let u = parse_user_struct(&user).expect("valid user entry");
    assert_eq!(u.uid, 999_999);
    assert_eq!(u.bytes, Some(CurMaxPair { cur: 536_843_240, max: 536_870_912 }));
    assert_eq!(u.fds, Some(CurMaxPair { cur: 10, max: 20 }));
    assert_eq!(u.matches, None);
    assert_eq!(u.objects, Some(CurMaxPair { cur: 3, max: 4 }));
}

#[test]
fn users_are_filtered_and_keyed_by_uid() {
    let mut cfg = Config::default();
    cfg.dbus_stats.user_stats = true;
    let users = vec![
        DBusBrokerUserAccounting::new(1, Some("one".to_string())),
        DBusBrokerUserAccounting::new(2, Some("two".to_string())),
        DBusBrokerUserAccounting::new(1, Some("uno".to_string())),
    ];
    let kept = filter_users(&cfg, users);
    assert_eq!(kept.len(), 2);
    // The later entry of uid 1 replaces the earlier one.
    assert_eq!(kept.iter().find(|u| u.uid == 1).unwrap().username, "uno");

    cfg.dbus_stats.user_blocklist = NameSet::from_names(vec!["2".to_string()]);
    let users = vec![
        DBusBrokerUserAccounting::new(1, Some("one".to_string())),
        DBusBrokerUserAccounting::new(2, Some("two".to_string())),
    ];
    let kept = filter_users(&cfg, users);
    assert_eq!(kept.len(), 1);
    assert_eq!(kept[0].uid, 1);

    cfg.dbus_stats.user_blocklist = NameSet::new();
    cfg.dbus_stats.user_allowlist = NameSet::from_names(vec!["two".to_string()]);
    let users = vec![
        DBusBrokerUserAccounting::new(1, Some("one".to_string())),
        DBusBrokerUserAccounting::new(2, Some("two".to_string())),
    ];
    let kept = filter_users(&cfg, users);
    assert_eq!(kept.len(), 1);
    assert_eq!(kept[0].uid, 2);
}

fn peer_entry(id: &str) -> BusValue {
    BusValue::Structure(vec![
        s(id),
        BusValue::Dict(vec![
            (s("UnixUserID"), BusValue::Variant(Box::new(BusValue::U32(0)))),
            (s("ProcessID"), BusValue::Variant(Box::new(BusValue::U32(1234)))),
            (
                s("UnixGroupIDs"),
                BusValue::Variant(Box::new(BusValue::Array(vec![BusValue::U32(0), s("x"), BusValue::U32(10)]))),
            ),
        ]),
        BusValue::Dict(vec![(s("NameObjects"), BusValue::U32(1)), (s("OutgoingBytes"), BusValue::U32(77))]),
    ])
}

#[test]
fn peers_are_read() {
    let mut wk = StrMap::new();
    wk.insert(":1.7".to_string(), "org.freedesktop.systemd1".to_string());
    let p = parse_peer_struct(&peer_entry(":1.7"), &wk).expect("valid peer entry");
    assert_eq!(p.id, ":1.7");
    assert_eq!(p.well_known_name, Some("org.freedesktop.systemd1".to_string()));
    assert_eq!(p.unix_user_id, Some(0));
    assert_eq!(p.process_id, Some(1234));
    assert_eq!(p.unix_group_ids, Some(vec![0, 10]));
    assert_eq!(p.name_objects, Some(1));
    assert_eq!(p.outgoing_bytes, Some(77));
    assert_eq!(p.matches, None);
    let anonymous = parse_peer_struct(&peer_entry(":1.8"), &wk).unwrap();
    assert_eq!(anonymous.well_known_name, None);
    assert!(parse_peer_struct(&BusValue::Structure(vec![s(":1.9")]), &wk).is_none());
    assert!(parse_peer_struct(&BusValue::U32(3), &wk).is_none());
}

#[test]
fn peer_accounting_gating() {
    let wk = StrMap::new();
    let reply = BusValue::Array(vec![peer_entry(":1.1"), BusValue::Other, peer_entry(":1.2")]);
    let mut cfg = Config::default();
    cfg.dbus_stats.peer_stats = false;
    cfg.dbus_stats.cgroup_stats = false;
    assert!(parse_peer_accounting(&cfg, Some(&reply), &wk).is_none());
    // Cgroup stats alone still need the peers.
    cfg.dbus_stats.cgroup_stats = true;
    let peers = parse_peer_accounting(&cfg, Some(&reply), &wk).unwrap();
    assert_eq!(peers.len(), 2);
    assert_eq!(peers[1].id, ":1.2");
    assert!(parse_peer_accounting(&cfg, None, &wk).is_none());
    assert!(parse_peer_accounting(&cfg, Some(&BusValue::U32(1)), &wk).is_none());
}

#[test]
fn dictionary_lookups() {
    let d = vec![
        (s("A"), BusValue::Variant(Box::new(BusValue::Variant(Box::new(BusValue::U32(5)))))),
        (s("B"), s("text")),
        (s("A"), BusValue::U32(6)),
    ];
    // The first entry wins, variants taken off.
    assert_eq!(get_u32(&d, "A"), Some(5));
    assert_eq!(get_u32(&d, "B"), None);
    assert_eq!(get_u32(&d, "C"), None);
    assert_eq!(get_u32_vec(&d, "B"), None);
}
