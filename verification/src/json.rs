//! Flattening of the stats into `(key, value)` entries with dot-separated
//! hierarchical keys, e.g. `"units.active_units"`, for metric systems that
//! read flat JSON. Later entries with the same key replace earlier ones.
use vstd::prelude::*;

use crate::dbus_stats::{
    cgroup_accounting_gives, cgroup_counters, peer_counters, peer_name, peer_values, wrap_sub, Counters, CurMaxPair,
    DBusBrokerCGroupAccounting, DBusBrokerPeerAccounting, DBusBrokerUserAccounting, DBusStats,
};
use crate::strmap::StrMap;
use crate::text::{push_str, string_of};

verus! {

/// A flattened value: a number, or the version text.
#[derive(Clone, Debug, PartialEq, Eq)]
pub enum FlatValue {
    Unsigned(u64),
    Signed(i64),
    Text(String),
}

/// Flattened entries as `(key, value)`.
pub type FlatEntries = Vec<(String, FlatValue)>;

pub open spec fn entry_view(e: (String, FlatValue)) -> (Seq<char>, FlatValue) {
    (e.0@, e.1)
}

pub open spec fn entries_view(v: Seq<(String, FlatValue)>) -> Seq<(Seq<char>, FlatValue)> {
    v.map_values(|e: (String, FlatValue)| entry_view(e))
}

/// `prefix.name`, or `name` when the prefix is empty.
pub open spec fn metric_key(prefix: Seq<char>, name: Seq<char>) -> Seq<char> {
    if prefix.len() == 0 {
        name
    } else {
        prefix + "."@ + name
    }
}

/// `base.field`.
pub open spec fn dotted(base: Seq<char>, field: Seq<char>) -> Seq<char> {
    base + "."@ + field
}

/// Prefix a metric name with the configured key prefix, if any.
pub fn gen_base_metric_key(key_prefix: &str, metric_name: &str) -> (r: String)
    ensures
        r@ == metric_key(key_prefix@, metric_name@),
{
    if key_prefix.is_empty() {
        string_of(metric_name)
    } else {
        let mut r = string_of(key_prefix);
        push_str(&mut r, ".");
        push_str(&mut r, metric_name);
        r
    }
}

fn dot(base: &str, field: &str) -> (r: String)
    ensures
        r@ == dotted(base@, field@),
{
    let mut r = string_of(base);
    push_str(&mut r, ".");
    push_str(&mut r, field);
    r
}

/// One entry for a counter that is present, none for one that is not.
pub open spec fn opt_entry(base: Seq<char>, field: Seq<char>, v: Option<u32>) -> Seq<(Seq<char>, FlatValue)> {
    match v {
        Some(x) => seq![(dotted(base, field), FlatValue::Unsigned(x as u64))],
        None => Seq::empty(),
    }
}

fn push_opt(out: &mut FlatEntries, base: &str, field: &str, v: Option<u32>)
    ensures
        entries_view(final(out)@) == entries_view(old(out)@) + opt_entry(base@, field@, v),
{
    match v {
        Some(x) => {
            let k = dot(base, field);
            out.push((k, FlatValue::Unsigned(x as u64)));
            proof {
                assert(entries_view(out@) =~= entries_view(old(out)@) + opt_entry(base@, field@, v));
            }
        },
        None => {
            proof {
                assert(entries_view(out@) =~= entries_view(old(out)@) + opt_entry(base@, field@, v));
            }
        },
    }
}

fn push_unsigned(out: &mut FlatEntries, base: &str, field: &str, v: u64)
    ensures
        entries_view(final(out)@) == entries_view(old(out)@).push((dotted(base@, field@), FlatValue::Unsigned(v))),
{
    let k = dot(base, field);
    out.push((k, FlatValue::Unsigned(v)));
    proof {
        assert(entries_view(out@) =~= entries_view(old(out)@).push((dotted(base@, field@), FlatValue::Unsigned(v))));
    }
}

/// The entries of the ten shared counters under `base`, in a fixed order.
pub open spec fn counter_entries(base: Seq<char>, c: Counters) -> Seq<(Seq<char>, FlatValue)> {
    opt_entry(base, "name_objects"@, c.name_objects) + opt_entry(base, "match_bytes"@, c.match_bytes)
        + opt_entry(base, "matches"@, c.matches) + opt_entry(base, "reply_objects"@, c.reply_objects)
        + opt_entry(base, "incoming_bytes"@, c.incoming_bytes) + opt_entry(
        base,
        "incoming_fds"@,
        c.incoming_fds,
    ) + opt_entry(base, "outgoing_bytes"@, c.outgoing_bytes) + opt_entry(
        base,
        "outgoing_fds"@,
        c.outgoing_fds,
    ) + opt_entry(base, "activation_request_bytes"@, c.activation_request_bytes) + opt_entry(
        base,
        "activation_request_fds"@,
        c.activation_request_fds,
    )
}

fn push_counters(out: &mut FlatEntries, base: &str, c: Counters)
    ensures
        entries_view(final(out)@) == entries_view(old(out)@) + counter_entries(base@, c),
{
    let ghost start = entries_view(out@);
    push_opt(out, base, "name_objects", c.name_objects);
    push_opt(out, base, "match_bytes", c.match_bytes);
    push_opt(out, base, "matches", c.matches);
    push_opt(out, base, "reply_objects", c.reply_objects);
    push_opt(out, base, "incoming_bytes", c.incoming_bytes);
    push_opt(out, base, "incoming_fds", c.incoming_fds);
    push_opt(out, base, "outgoing_bytes", c.outgoing_bytes);
    push_opt(out, base, "outgoing_fds", c.outgoing_fds);
    push_opt(out, base, "activation_request_bytes", c.activation_request_bytes);
    push_opt(out, base, "activation_request_fds", c.activation_request_fds);
    proof {
        assert(entries_view(out@) =~= start + counter_entries(base@, c));
    }
}

/// The entries of the peers, each under `base.peer.<reported name>`.
pub open spec fn peer_entries_flat(base: Seq<char>, peers: Seq<DBusBrokerPeerAccounting>) -> Seq<(Seq<char>, FlatValue)>
    decreases peers.len(),
{
    if peers.len() == 0 {
        Seq::empty()
    } else {
        peer_entries_flat(base, peers.drop_last()) + counter_entries(
            dotted(dotted(base, "peer"@), peer_name(peers.last())),
            peer_counters(peers.last()),
        )
    }
}

/// The entries of the cgroups, each under `base.cgroup.<name>`.
pub open spec fn cgroup_entries_flat(base: Seq<char>, cgroups: Seq<DBusBrokerCGroupAccounting>) -> Seq<
    (Seq<char>, FlatValue),
>
    decreases cgroups.len(),
{
    if cgroups.len() == 0 {
        Seq::empty()
    } else {
        cgroup_entries_flat(base, cgroups.drop_last()) + counter_entries(
            dotted(dotted(base, "cgroup"@), cgroups.last().name@),
            cgroup_counters(cgroups.last()),
        )
    }
}

/// One entry for a quota that is present: its usage.
pub open spec fn usage_entry(base: Seq<char>, field: Seq<char>, p: Option<CurMaxPair>) -> Seq<(Seq<char>, FlatValue)> {
    match p {
        Some(q) => seq![(dotted(base, field), FlatValue::Unsigned(wrap_sub(q.max, q.cur) as u64))],
        None => Seq::empty(),
    }
}

/// The entries of the users' quota usage, each under `base.user.<name>`.
pub open spec fn user_entries_flat(base: Seq<char>, users: Seq<DBusBrokerUserAccounting>) -> Seq<(Seq<char>, FlatValue)>
    decreases users.len(),
{
    if users.len() == 0 {
        Seq::empty()
    } else {
        let u = users.last();
        let b = dotted(dotted(base, "user"@), u.username@);
        user_entries_flat(base, users.drop_last()) + usage_entry(b, "bytes"@, u.bytes) + usage_entry(
            b,
            "fds"@,
            u.fds,
        ) + usage_entry(b, "matches"@, u.matches) + usage_entry(b, "objects"@, u.objects)
    }
}

fn push_usage(out: &mut FlatEntries, base: &str, field: &str, p: Option<CurMaxPair>)
    ensures
        entries_view(final(out)@) == entries_view(old(out)@) + usage_entry(base@, field@, p),
{
    match p {
        Some(q) => {
            let k = dot(base, field);
            let u = q.get_usage();
            out.push((k, FlatValue::Unsigned(u as u64)));
            proof {
                assert(entries_view(out@) =~= entries_view(old(out)@) + usage_entry(base@, field@, p));
            }
        },
        None => {
            proof {
                assert(entries_view(out@) =~= entries_view(old(out)@) + usage_entry(base@, field@, p));
            }
        },
    }
}

/// The daemon-wide counters (the serial is left out).
pub open spec fn daemon_entries(base: Seq<char>, s: DBusStats) -> Seq<(Seq<char>, FlatValue)> {
    opt_entry(base, "active_connections"@, s.active_connections) + opt_entry(
        base,
        "incomplete_connections"@,
        s.incomplete_connections,
    ) + opt_entry(base, "bus_names"@, s.bus_names) + opt_entry(base, "peak_bus_names"@, s.peak_bus_names)
        + opt_entry(base, "peak_bus_names_per_connection"@, s.peak_bus_names_per_connection)
        + opt_entry(base, "match_rules"@, s.match_rules) + opt_entry(
        base,
        "peak_match_rules"@,
        s.peak_match_rules,
    ) + opt_entry(base, "peak_match_rules_per_connection"@, s.peak_match_rules_per_connection)
}

/// The peers' entries of D-Bus stats, none without peer accounting.
pub open spec fn peer_part(base: Seq<char>, s: DBusStats) -> Seq<(Seq<char>, FlatValue)> {
    match s.dbus_broker_peer_accounting {
        Some(p) => peer_entries_flat(base, peer_values(p)),
        None => Seq::empty(),
    }
}

/// The cgroups' entries, in the order of the map's entries.
pub open spec fn cgroup_part(base: Seq<char>, cg: Option<StrMap<DBusBrokerCGroupAccounting>>) -> Seq<
    (Seq<char>, FlatValue),
> {
    match cg {
        Some(m) => cgroup_entries_flat(base, m.items().map_values(|e: (Seq<char>, DBusBrokerCGroupAccounting)| e.1)),
        None => Seq::empty(),
    }
}

/// The users' entries of D-Bus stats, none without user accounting.
pub open spec fn user_part(base: Seq<char>, s: DBusStats) -> Seq<(Seq<char>, FlatValue)> {
    match s.dbus_broker_user_accounting {
        Some(u) => user_entries_flat(base, u@),
        None => Seq::empty(),
    }
}

/// Flatten D-Bus stats under `<prefix>.dbus`: the daemon-wide counters,
/// then each peer's counters (`dbus.peer.<name>.<counter>`), each cgroup's
/// of the per-cgroup accounting (`dbus.cgroup.<name>.<counter>`, stored or
/// derived from the peers as `cgroup_accounting` gives it, in the order of
/// that map) and each user's quota usage (`dbus.user.<name>.<quota>`);
/// absent counters give no entry. No stats, no entries.
pub fn flatten_dbus_stats(optional_dbus_stats: &Option<DBusStats>, key_prefix: &str) -> (r: FlatEntries)
    ensures
        match optional_dbus_stats {
            None => r@.len() == 0,
            Some(s) => {
                let base = metric_key(key_prefix@, "dbus"@);
                exists|cg: Option<StrMap<DBusBrokerCGroupAccounting>>|
                    {
                        &&& cgroup_accounting_gives(*s, cg)
                        &&& entries_view(r@) == daemon_entries(base, *s) + peer_part(base, *s) + #[trigger] cgroup_part(
                            base,
                            cg,
                        ) + user_part(base, *s)
                    }
            },
        },
{
    let mut out: FlatEntries = Vec::new();
    let s = match optional_dbus_stats {
        Some(s) => s,
        None => {
            return out;
        },
    };
    let base_s = gen_base_metric_key(key_prefix, "dbus");
    let base = base_s.as_str();
    let ghost b = base@;
    push_opt(&mut out, base, "active_connections", s.active_connections);
    push_opt(&mut out, base, "incomplete_connections", s.incomplete_connections);
    push_opt(&mut out, base, "bus_names", s.bus_names);
    push_opt(&mut out, base, "peak_bus_names", s.peak_bus_names);
    push_opt(&mut out, base, "peak_bus_names_per_connection", s.peak_bus_names_per_connection);
    push_opt(&mut out, base, "match_rules", s.match_rules);
    push_opt(&mut out, base, "peak_match_rules", s.peak_match_rules);
    push_opt(&mut out, base, "peak_match_rules_per_connection", s.peak_match_rules_per_connection);
    let ghost daemon = entries_view(out@);
    proof {
        assert(daemon =~= daemon_entries(b, *s));
    }
    let peer_base = dot(base, "peer");
    match s.peer_accounting() {
        Some(p) => {
            let n = p.len();
            let ghost peers = peer_values(*p);
            let mut i: usize = 0;
            proof {
                assert(peers.take(0) =~= Seq::<DBusBrokerPeerAccounting>::empty());
                assert(entries_view(out@) =~= daemon + peer_entries_flat(b, peers.take(0)));
            }
            while i < n
                invariant
                    i <= n,
                    n == p.items().len(),
                    peers == peer_values(*p),
                    peers.len() == n,
                    peer_base@ == dotted(b, "peer"@),
                    entries_view(out@) == daemon + peer_entries_flat(b, peers.take(i as int)),
                decreases n - i,
            {
                let (_, peer) = p.entry_at(i);
                proof {
                    assert(peers[i as int] == *peer);
                    assert(peers.take(i + 1).drop_last() =~= peers.take(i as int));
                    assert(peers.take(i + 1).last() == *peer);
                }
                let name = peer.get_name();
                let pb = dot(peer_base.as_str(), name.as_str());
                let c = Counters {
                    name_objects: peer.name_objects,
                    match_bytes: peer.match_bytes,
                    matches: peer.matches,
                    reply_objects: peer.reply_objects,
                    incoming_bytes: peer.incoming_bytes,
                    incoming_fds: peer.incoming_fds,
                    outgoing_bytes: peer.outgoing_bytes,
                    outgoing_fds: peer.outgoing_fds,
                    activation_request_bytes: peer.activation_request_bytes,
                    activation_request_fds: peer.activation_request_fds,
                };
                push_counters(&mut out, pb.as_str(), c);
                proof {
                    assert(entries_view(out@) =~= daemon + peer_entries_flat(b, peers.take(i + 1)));
                }
                i = i + 1;
            }
            proof {
                assert(peers.take(i as int) =~= peers);
            }
        },
        None => {
            proof {
                assert(entries_view(out@) =~= daemon + Seq::<(Seq<char>, FlatValue)>::empty());
            }
        },
    }
    let ghost after_peers = entries_view(out@);
    proof {
        assert(after_peers =~= daemon + peer_part(b, *s));
    }
    let cgroup_base = dot(base, "cgroup");
    let cg = s.cgroup_accounting();
    match &cg {
        Some(m) => {
            let n = m.len();
            let ghost cgs = m.items().map_values(|e: (Seq<char>, DBusBrokerCGroupAccounting)| e.1);
            let mut i: usize = 0;
            proof {
                assert(cgs.take(0) =~= Seq::<DBusBrokerCGroupAccounting>::empty());
                assert(entries_view(out@) =~= after_peers + cgroup_entries_flat(b, cgs.take(0)));
            }
            while i < n
                invariant
                    i <= n,
                    n == m.items().len(),
                    cgs == m.items().map_values(|e: (Seq<char>, DBusBrokerCGroupAccounting)| e.1),
                    cgs.len() == n,
                    cgroup_base@ == dotted(b, "cgroup"@),
                    entries_view(out@) == after_peers + cgroup_entries_flat(b, cgs.take(i as int)),
                decreases n - i,
            {
                let (_, cgv) = m.entry_at(i);
                proof {
                    assert(cgs[i as int] == *cgv);
                    assert(cgs.take(i + 1).drop_last() =~= cgs.take(i as int));
                    assert(cgs.take(i + 1).last() == *cgv);
                }
                let cb = dot(cgroup_base.as_str(), cgv.name.as_str());
                let c = Counters {
                    name_objects: cgv.name_objects,
                    match_bytes: cgv.match_bytes,
                    matches: cgv.matches,
                    reply_objects: cgv.reply_objects,
                    incoming_bytes: cgv.incoming_bytes,
                    incoming_fds: cgv.incoming_fds,
                    outgoing_bytes: cgv.outgoing_bytes,
                    outgoing_fds: cgv.outgoing_fds,
                    activation_request_bytes: cgv.activation_request_bytes,
                    activation_request_fds: cgv.activation_request_fds,
                };
                push_counters(&mut out, cb.as_str(), c);
                proof {
                    assert(entries_view(out@) =~= after_peers + cgroup_entries_flat(b, cgs.take(i + 1)));
                }
                i = i + 1;
            }
            proof {
                assert(cgs.take(i as int) =~= cgs);
            }
        },
        None => {
            proof {
                assert(entries_view(out@) =~= after_peers + Seq::<(Seq<char>, FlatValue)>::empty());
            }
        },
    }
    let ghost before_users = entries_view(out@);
    proof {
        assert(before_users =~= after_peers + cgroup_part(b, cg));
    }
    let user_base = dot(base, "user");
    match s.user_accounting() {
        Some(users) => {
            let mut i: usize = 0;
            proof {
                assert(users@.take(0) =~= Seq::<DBusBrokerUserAccounting>::empty());
                assert(entries_view(out@) =~= before_users + user_entries_flat(b, users@.take(0)));
            }
            while i < users.len()
                invariant
                    i <= users.len(),
                    user_base@ == dotted(b, "user"@),
                    entries_view(out@) == before_users + user_entries_flat(b, users@.take(i as int)),
                decreases users.len() - i,
            {
                let u = &users[i];
                proof {
                    assert(users@.take(i + 1).drop_last() =~= users@.take(i as int));
                    assert(users@.take(i + 1).last() == *u);
                }
                let ub = dot(user_base.as_str(), u.username.as_str());
                push_usage(&mut out, ub.as_str(), "bytes", u.bytes);
                push_usage(&mut out, ub.as_str(), "fds", u.fds);
                push_usage(&mut out, ub.as_str(), "matches", u.matches);
                push_usage(&mut out, ub.as_str(), "objects", u.objects);
                proof {
                    assert(entries_view(out@) =~= before_users + user_entries_flat(b, users@.take(i + 1)));
                }
                i = i + 1;
            }
            proof {
                assert(users@.take(i as int) =~= users@);
            }
        },
        None => {
            proof {
                assert(entries_view(out@) =~= before_users + Seq::<(Seq<char>, FlatValue)>::empty());
            }
        },
    }
    proof {
        assert(entries_view(out@) =~= daemon_entries(b, *s) + peer_part(b, *s) + cgroup_part(b, cg) + user_part(b, *s));
        assert(cgroup_accounting_gives(*s, cg));
    }
    out
}


fn push_value(out: &mut FlatEntries, base: &str, field: &str, v: FlatValue)
    ensures
        entries_view(final(out)@) == entries_view(old(out)@).push((dotted(base@, field@), v)),
{
    let k = dot(base, field);
    out.push((k, v));
    proof {
        assert(entries_view(out@) =~= entries_view(old(out)@).push((dotted(base@, field@), v)));
    }
}
/// The entries of PID 1's stats under `base`.
pub open spec fn pid1_entries(base: Seq<char>, p: crate::pid1::Pid1Stats) -> Seq<(Seq<char>, FlatValue)> {
    seq![
        (dotted(base, "cpu_time_kernel"@), FlatValue::Unsigned(p.cpu_time_kernel)),
        (dotted(base, "cpu_user_kernel"@), FlatValue::Unsigned(p.cpu_time_user)),
        (dotted(base, "memory_usage_bytes"@), FlatValue::Unsigned(p.memory_usage_bytes)),
        (dotted(base, "fd_count"@), FlatValue::Unsigned(p.fd_count)),
        (dotted(base, "tasks"@), FlatValue::Unsigned(p.tasks)),
    ]
}

/// Flatten PID 1's stats under `<prefix>.pid1`; no stats, no entries.
pub fn flatten_pid1(optional_pid1_stats: &Option<crate::pid1::Pid1Stats>, key_prefix: &str) -> (r: FlatEntries)
    ensures
        entries_view(r@) == pid1_flat(key_prefix@, *optional_pid1_stats),
{
    let mut out: FlatEntries = Vec::new();
    match optional_pid1_stats {
        None => {
            assert(entries_view(out@) =~= Seq::<(Seq<char>, FlatValue)>::empty());
        },
        Some(p) => {
            let base_s = gen_base_metric_key(key_prefix, "pid1");
            let base = base_s.as_str();
            let o = &mut out;
            push_value(o, base, "cpu_time_kernel", FlatValue::Unsigned(p.cpu_time_kernel));
            push_value(o, base, "cpu_user_kernel", FlatValue::Unsigned(p.cpu_time_user));
            push_value(o, base, "memory_usage_bytes", FlatValue::Unsigned(p.memory_usage_bytes));
            push_value(o, base, "fd_count", FlatValue::Unsigned(p.fd_count));
            push_value(o, base, "tasks", FlatValue::Unsigned(p.tasks));
            assert(entries_view(out@) =~= pid1_entries(base@, *p));
        },
    }
    out
}
/// The entries of the unit counters under `base`.
pub open spec fn counter_entries_units(base: Seq<char>, c: crate::units::UnitCounters) -> Seq<(Seq<char>, FlatValue)> {
    seq![
        (dotted(base, "activating_units"@), FlatValue::Unsigned(c.activating_units)),
        (dotted(base, "active_units"@), FlatValue::Unsigned(c.active_units)),
        (dotted(base, "automount_units"@), FlatValue::Unsigned(c.automount_units)),
        (dotted(base, "device_units"@), FlatValue::Unsigned(c.device_units)),
        (dotted(base, "failed_units"@), FlatValue::Unsigned(c.failed_units)),
        (dotted(base, "inactive_units"@), FlatValue::Unsigned(c.inactive_units)),
        (dotted(base, "jobs_queued"@), FlatValue::Unsigned(c.jobs_queued)),
        (dotted(base, "loaded_units"@), FlatValue::Unsigned(c.loaded_units)),
        (dotted(base, "masked_units"@), FlatValue::Unsigned(c.masked_units)),
        (dotted(base, "mount_units"@), FlatValue::Unsigned(c.mount_units)),
        (dotted(base, "not_found_units"@), FlatValue::Unsigned(c.not_found_units)),
        (dotted(base, "path_units"@), FlatValue::Unsigned(c.path_units)),
        (dotted(base, "scope_units"@), FlatValue::Unsigned(c.scope_units)),
        (dotted(base, "service_units"@), FlatValue::Unsigned(c.service_units)),
        (dotted(base, "slice_units"@), FlatValue::Unsigned(c.slice_units)),
        (dotted(base, "socket_units"@), FlatValue::Unsigned(c.socket_units)),
        (dotted(base, "target_units"@), FlatValue::Unsigned(c.target_units)),
        (dotted(base, "timer_units"@), FlatValue::Unsigned(c.timer_units)),
        (dotted(base, "timer_persistent_units"@), FlatValue::Unsigned(c.timer_persistent_units)),
        (dotted(base, "timer_remain_after_elapse"@), FlatValue::Unsigned(c.timer_remain_after_elapse)),
        (dotted(base, "total_units"@), FlatValue::Unsigned(c.total_units)),
    ]
}

/// Flatten the unit counters under `<prefix>.units`.
pub fn flatten_units(units_stats: &crate::units::SystemdUnitStats, key_prefix: &str) -> (r: FlatEntries)
    ensures
        entries_view(r@) == counter_entries_units(metric_key(key_prefix@, "units"@), crate::units::counters_of(*units_stats)),
{
    let mut out: FlatEntries = Vec::new();
    let base_s = gen_base_metric_key(key_prefix, "units");
    let base = base_s.as_str();
    let c = crate::units::UnitCounters::from_stats(units_stats);
    let o = &mut out;
    push_value(o, base, "activating_units", FlatValue::Unsigned(c.activating_units));
    push_value(o, base, "active_units", FlatValue::Unsigned(c.active_units));
    push_value(o, base, "automount_units", FlatValue::Unsigned(c.automount_units));
    push_value(o, base, "device_units", FlatValue::Unsigned(c.device_units));
    push_value(o, base, "failed_units", FlatValue::Unsigned(c.failed_units));
    push_value(o, base, "inactive_units", FlatValue::Unsigned(c.inactive_units));
    push_value(o, base, "jobs_queued", FlatValue::Unsigned(c.jobs_queued));
    push_value(o, base, "loaded_units", FlatValue::Unsigned(c.loaded_units));
    push_value(o, base, "masked_units", FlatValue::Unsigned(c.masked_units));
    push_value(o, base, "mount_units", FlatValue::Unsigned(c.mount_units));
    push_value(o, base, "not_found_units", FlatValue::Unsigned(c.not_found_units));
    push_value(o, base, "path_units", FlatValue::Unsigned(c.path_units));
    push_value(o, base, "scope_units", FlatValue::Unsigned(c.scope_units));
    push_value(o, base, "service_units", FlatValue::Unsigned(c.service_units));
    push_value(o, base, "slice_units", FlatValue::Unsigned(c.slice_units));
    push_value(o, base, "socket_units", FlatValue::Unsigned(c.socket_units));
    push_value(o, base, "target_units", FlatValue::Unsigned(c.target_units));
    push_value(o, base, "timer_units", FlatValue::Unsigned(c.timer_units));
    push_value(o, base, "timer_persistent_units", FlatValue::Unsigned(c.timer_persistent_units));
    push_value(o, base, "timer_remain_after_elapse", FlatValue::Unsigned(c.timer_remain_after_elapse));
    push_value(o, base, "total_units", FlatValue::Unsigned(c.total_units));
    assert(entries_view(out@) =~= counter_entries_units(base@, c));
    out
}
/// The entries of one service's stats under `base`.
pub open spec fn service_entries(base: Seq<char>, st: crate::units::ServiceStats) -> Seq<(Seq<char>, FlatValue)> {
    seq![
        (dotted(base, "active_enter_timestamp"@), FlatValue::Unsigned(st.active_enter_timestamp)),
        (dotted(base, "active_exit_timestamp"@), FlatValue::Unsigned(st.active_exit_timestamp)),
        (dotted(base, "cpuusage_nsec"@), FlatValue::Unsigned(st.cpuusage_nsec)),
        (dotted(base, "inactive_exit_timestamp"@), FlatValue::Unsigned(st.inactive_exit_timestamp)),
        (dotted(base, "ioread_bytes"@), FlatValue::Unsigned(st.ioread_bytes)),
        (dotted(base, "ioread_operations"@), FlatValue::Unsigned(st.ioread_operations)),
        (dotted(base, "memory_available"@), FlatValue::Unsigned(st.memory_available)),
        (dotted(base, "memory_current"@), FlatValue::Unsigned(st.memory_current)),
        (dotted(base, "nrestarts"@), FlatValue::Unsigned(st.nrestarts as u64)),
        (dotted(base, "processes"@), FlatValue::Unsigned(st.processes as u64)),
        (dotted(base, "restart_usec"@), FlatValue::Unsigned(st.restart_usec)),
        (dotted(base, "state_change_timestamp"@), FlatValue::Unsigned(st.state_change_timestamp)),
        (dotted(base, "status_errno"@), FlatValue::Signed(st.status_errno as i64)),
        (dotted(base, "tasks_current"@), FlatValue::Unsigned(st.tasks_current)),
        (dotted(base, "timeout_clean_usec"@), FlatValue::Unsigned(st.timeout_clean_usec)),
        (dotted(base, "watchdog_usec"@), FlatValue::Unsigned(st.watchdog_usec)),
    ]
}
/// The entries of one timer's stats under `base`.
pub open spec fn timer_entries(base: Seq<char>, st: crate::timer::TimerStats) -> Seq<(Seq<char>, FlatValue)> {
    seq![
        (dotted(base, "accuracy_usec"@), FlatValue::Unsigned(st.accuracy_usec)),
        (dotted(base, "fixed_random_delay"@), FlatValue::Unsigned(if st.fixed_random_delay { 1u64 } else { 0u64 })),
        (dotted(base, "last_trigger_usec"@), FlatValue::Unsigned(st.last_trigger_usec)),
        (dotted(base, "last_trigger_usec_monotonic"@), FlatValue::Unsigned(st.last_trigger_usec_monotonic)),
        (dotted(base, "next_elapse_usec_monotonic"@), FlatValue::Unsigned(st.next_elapse_usec_monotonic)),
        (dotted(base, "next_elapse_usec_realtime"@), FlatValue::Unsigned(st.next_elapse_usec_realtime)),
        (dotted(base, "persistent"@), FlatValue::Unsigned(if st.persistent { 1u64 } else { 0u64 })),
        (dotted(base, "randomized_delay_usec"@), FlatValue::Unsigned(st.randomized_delay_usec)),
        (dotted(base, "remain_after_elapse"@), FlatValue::Unsigned(if st.remain_after_elapse { 1u64 } else { 0u64 })),
        (dotted(base, "service_unit_last_state_change_usec"@), FlatValue::Unsigned(st.service_unit_last_state_change_usec)),
        (dotted(base, "service_unit_last_state_change_usec_monotonic"@), FlatValue::Unsigned(st.service_unit_last_state_change_usec_monotonic)),
    ]
}
/// The entries of one unit's states under `base`: the states as numbers,
/// health as 0 or 1, and the time in state when it is known.
pub open spec fn unit_state_entries(base: Seq<char>, st: crate::units::UnitStates) -> Seq<(Seq<char>, FlatValue)> {
    seq![
        (dotted(base, "active_state"@), FlatValue::Unsigned(crate::unit_constants::active_state_number(st.active_state) as u64)),
        (dotted(base, "load_state"@), FlatValue::Unsigned(crate::unit_constants::load_state_number(st.load_state) as u64)),
        (dotted(base, "unhealthy"@), FlatValue::Unsigned(if st.unhealthy { 1u64 } else { 0u64 })),
    ] + match st.time_in_state_usecs {
        Some(t) => seq![(dotted(base, "time_in_state_usecs"@), FlatValue::Unsigned(t))],
        None => Seq::empty(),
    }
}

fn push_service(out: &mut FlatEntries, base: &str, st: &crate::units::ServiceStats)
    ensures
        entries_view(final(out)@) == entries_view(old(out)@) + service_entries(base@, *st),
{
    let ghost start = entries_view(out@);
    push_value(out, base, "active_enter_timestamp", FlatValue::Unsigned(st.active_enter_timestamp));
    push_value(out, base, "active_exit_timestamp", FlatValue::Unsigned(st.active_exit_timestamp));
    push_value(out, base, "cpuusage_nsec", FlatValue::Unsigned(st.cpuusage_nsec));
    push_value(out, base, "inactive_exit_timestamp", FlatValue::Unsigned(st.inactive_exit_timestamp));
    push_value(out, base, "ioread_bytes", FlatValue::Unsigned(st.ioread_bytes));
    push_value(out, base, "ioread_operations", FlatValue::Unsigned(st.ioread_operations));
    push_value(out, base, "memory_available", FlatValue::Unsigned(st.memory_available));
    push_value(out, base, "memory_current", FlatValue::Unsigned(st.memory_current));
    push_value(out, base, "nrestarts", FlatValue::Unsigned(st.nrestarts as u64));
    push_value(out, base, "processes", FlatValue::Unsigned(st.processes as u64));
    push_value(out, base, "restart_usec", FlatValue::Unsigned(st.restart_usec));
    push_value(out, base, "state_change_timestamp", FlatValue::Unsigned(st.state_change_timestamp));
    push_value(out, base, "status_errno", FlatValue::Signed(st.status_errno as i64));
    push_value(out, base, "tasks_current", FlatValue::Unsigned(st.tasks_current));
    push_value(out, base, "timeout_clean_usec", FlatValue::Unsigned(st.timeout_clean_usec));
    push_value(out, base, "watchdog_usec", FlatValue::Unsigned(st.watchdog_usec));
    assert(entries_view(out@) =~= start + service_entries(base@, *st));
}

fn push_timer(out: &mut FlatEntries, base: &str, st: &crate::timer::TimerStats)
    ensures
        entries_view(final(out)@) == entries_view(old(out)@) + timer_entries(base@, *st),
{
    let ghost start = entries_view(out@);
    push_value(out, base, "accuracy_usec", FlatValue::Unsigned(st.accuracy_usec));
    push_value(out, base, "fixed_random_delay", FlatValue::Unsigned(if st.fixed_random_delay { 1u64 } else { 0u64 }));
    push_value(out, base, "last_trigger_usec", FlatValue::Unsigned(st.last_trigger_usec));
    push_value(out, base, "last_trigger_usec_monotonic", FlatValue::Unsigned(st.last_trigger_usec_monotonic));
    push_value(out, base, "next_elapse_usec_monotonic", FlatValue::Unsigned(st.next_elapse_usec_monotonic));
    push_value(out, base, "next_elapse_usec_realtime", FlatValue::Unsigned(st.next_elapse_usec_realtime));
    push_value(out, base, "persistent", FlatValue::Unsigned(if st.persistent { 1u64 } else { 0u64 }));
    push_value(out, base, "randomized_delay_usec", FlatValue::Unsigned(st.randomized_delay_usec));
    push_value(out, base, "remain_after_elapse", FlatValue::Unsigned(if st.remain_after_elapse { 1u64 } else { 0u64 }));
    push_value(out, base, "service_unit_last_state_change_usec", FlatValue::Unsigned(st.service_unit_last_state_change_usec));
    push_value(out, base, "service_unit_last_state_change_usec_monotonic", FlatValue::Unsigned(st.service_unit_last_state_change_usec_monotonic));
    assert(entries_view(out@) =~= start + timer_entries(base@, *st));
}

fn push_unit_state(out: &mut FlatEntries, base: &str, st: &crate::units::UnitStates)
    ensures
        entries_view(final(out)@) == entries_view(old(out)@) + unit_state_entries(base@, *st),
{
    let ghost start = entries_view(out@);
    push_value(out, base, "active_state", FlatValue::Unsigned(st.active_state.to_u8() as u64));
    push_value(out, base, "load_state", FlatValue::Unsigned(st.load_state.to_u8() as u64));
    push_value(out, base, "unhealthy", FlatValue::Unsigned(if st.unhealthy { 1u64 } else { 0u64 }));
    match st.time_in_state_usecs {
        Some(t) => push_value(out, base, "time_in_state_usecs", FlatValue::Unsigned(t)),
        None => {},
    }
    assert(entries_view(out@) =~= start + unit_state_entries(base@, *st));
}

/// The entries of the service map's items under `base.<name>`.
pub open spec fn service_map_entries(base: Seq<char>, items: Seq<(Seq<char>, crate::units::ServiceStats)>) -> Seq<(Seq<char>, FlatValue)>
    decreases items.len(),
{
    if items.len() == 0 {
        Seq::empty()
    } else {
        service_map_entries(base, items.drop_last()) + service_entries(dotted(base, items.last().0), items.last().1)
    }
}

/// Flatten each service's stats under `<prefix>.services.<unit>`.
pub fn flatten_services(m: &crate::strmap::StrMap<crate::units::ServiceStats>, key_prefix: &str) -> (r: FlatEntries)
    ensures
        entries_view(r@) == service_map_entries(metric_key(key_prefix@, "services"@), m.items()),
{
    let mut out: FlatEntries = Vec::new();
    let base_s = gen_base_metric_key(key_prefix, "services");
    let base = base_s.as_str();
    let n = m.len();
    let ghost items = m.items();
    let mut i: usize = 0;
    proof {
        assert(items.take(0) =~= Seq::<(Seq<char>, crate::units::ServiceStats)>::empty());
        assert(entries_view(out@) =~= Seq::<(Seq<char>, FlatValue)>::empty());
    }
    while i < n
        invariant
            i <= n,
            n == items.len(),
            items == m.items(),
            entries_view(out@) == service_map_entries(base@, items.take(i as int)),
        decreases n - i,
    {
        let (name, st) = m.entry_at(i);
        proof {
            assert(items.take(i + 1).drop_last() =~= items.take(i as int));
            assert(items.take(i + 1).last() == items[i as int]);
        }
        let b = dot(base, name.as_str());
        push_service(&mut out, b.as_str(), st);
        i = i + 1;
    }
    proof {
        assert(items.take(i as int) =~= items);
    }
    out
}

/// The entries of the timer map's items under `base.<name>`.
pub open spec fn timer_map_entries(base: Seq<char>, items: Seq<(Seq<char>, crate::timer::TimerStats)>) -> Seq<(Seq<char>, FlatValue)>
    decreases items.len(),
{
    if items.len() == 0 {
        Seq::empty()
    } else {
        timer_map_entries(base, items.drop_last()) + timer_entries(dotted(base, items.last().0), items.last().1)
    }
}

/// Flatten each timer's stats under `<prefix>.timers.<unit>`, flags as 0 or 1.
pub fn flatten_timers(m: &crate::strmap::StrMap<crate::timer::TimerStats>, key_prefix: &str) -> (r: FlatEntries)
    ensures
        entries_view(r@) == timer_map_entries(metric_key(key_prefix@, "timers"@), m.items()),
{
    let mut out: FlatEntries = Vec::new();
    let base_s = gen_base_metric_key(key_prefix, "timers");
    let base = base_s.as_str();
    let n = m.len();
    let ghost items = m.items();
    let mut i: usize = 0;
    proof {
        assert(items.take(0) =~= Seq::<(Seq<char>, crate::timer::TimerStats)>::empty());
        assert(entries_view(out@) =~= Seq::<(Seq<char>, FlatValue)>::empty());
    }
    while i < n
        invariant
            i <= n,
            n == items.len(),
            items == m.items(),
            entries_view(out@) == timer_map_entries(base@, items.take(i as int)),
        decreases n - i,
    {
        let (name, st) = m.entry_at(i);
        proof {
            assert(items.take(i + 1).drop_last() =~= items.take(i as int));
            assert(items.take(i + 1).last() == items[i as int]);
        }
        let b = dot(base, name.as_str());
        push_timer(&mut out, b.as_str(), st);
        i = i + 1;
    }
    proof {
        assert(items.take(i as int) =~= items);
    }
    out
}

/// The entries of the unit_state map's items under `base.<name>`.
pub open spec fn unit_state_map_entries(base: Seq<char>, items: Seq<(Seq<char>, crate::units::UnitStates)>) -> Seq<(Seq<char>, FlatValue)>
    decreases items.len(),
{
    if items.len() == 0 {
        Seq::empty()
    } else {
        unit_state_map_entries(base, items.drop_last()) + unit_state_entries(dotted(base, items.last().0), items.last().1)
    }
}

/// Flatten each unit's states under `<prefix>.unit_states.<unit>`.
pub fn flatten_unit_states(m: &crate::strmap::StrMap<crate::units::UnitStates>, key_prefix: &str) -> (r: FlatEntries)
    ensures
        entries_view(r@) == unit_state_map_entries(metric_key(key_prefix@, "unit_states"@), m.items()),
{
    let mut out: FlatEntries = Vec::new();
    let base_s = gen_base_metric_key(key_prefix, "unit_states");
    let base = base_s.as_str();
    let n = m.len();
    let ghost items = m.items();
    let mut i: usize = 0;
    proof {
        assert(items.take(0) =~= Seq::<(Seq<char>, crate::units::UnitStates)>::empty());
        assert(entries_view(out@) =~= Seq::<(Seq<char>, FlatValue)>::empty());
    }
    while i < n
        invariant
            i <= n,
            n == items.len(),
            items == m.items(),
            entries_view(out@) == unit_state_map_entries(base@, items.take(i as int)),
        decreases n - i,
    {
        let (name, st) = m.entry_at(i);
        proof {
            assert(items.take(i + 1).drop_last() =~= items.take(i as int));
            assert(items.take(i + 1).last() == items[i as int]);
        }
        let b = dot(base, name.as_str());
        push_unit_state(&mut out, b.as_str(), st);
        i = i + 1;
    }
    proof {
        assert(items.take(i as int) =~= items);
    }
    out
}


/// The entries of one link's states under `base`, as numbers.
pub open spec fn interface_entries(base: Seq<char>, i: crate::networkd::InterfaceState) -> Seq<(Seq<char>, FlatValue)> {
    seq![
        (dotted(base, "address_state"@), FlatValue::Unsigned(crate::networkd::address_state_number(i.address_state) as u64)),
        (dotted(base, "admin_state"@), FlatValue::Unsigned(crate::networkd::admin_state_number(i.admin_state) as u64)),
        (dotted(base, "carrier_state"@), FlatValue::Unsigned(crate::networkd::carrier_state_number(i.carrier_state) as u64)),
        (dotted(base, "ipv4_address_state"@), FlatValue::Unsigned(crate::networkd::address_state_number(i.ipv4_address_state) as u64)),
        (dotted(base, "ipv6_address_state"@), FlatValue::Unsigned(crate::networkd::address_state_number(i.ipv6_address_state) as u64)),
        (dotted(base, "oper_state"@), FlatValue::Unsigned(crate::networkd::oper_state_number(i.oper_state) as u64)),
        (dotted(base, "required_for_online"@), FlatValue::Unsigned(crate::networkd::bool_state_number(i.required_for_online) as u64)),
    ]
}

/// The entries of the links, each under `base.<name>`.
pub open spec fn interfaces_entries(base: Seq<char>, ifaces: Seq<crate::networkd::InterfaceState>) -> Seq<(Seq<char>, FlatValue)>
    decreases ifaces.len(),
{
    if ifaces.len() == 0 {
        Seq::empty()
    } else {
        interfaces_entries(base, ifaces.drop_last()) + interface_entries(dotted(base, ifaces.last().name@), ifaces.last())
    }
}

/// Flatten networkd's state under `<prefix>.networkd`: the managed link
/// count, then each link's states under its name.
pub fn flatten_networkd(networkd_stats: &crate::networkd::NetworkdState, key_prefix: &str) -> (r: FlatEntries)
    ensures
        entries_view(r@) == networkd_flat(key_prefix@, *networkd_stats),
{
    let mut out: FlatEntries = Vec::new();
    let base_s = gen_base_metric_key(key_prefix, "networkd");
    let base = base_s.as_str();
    push_value(&mut out, base, "managed_interfaces", FlatValue::Unsigned(networkd_stats.managed_interfaces));
    let ghost head = entries_view(out@);
    let ifaces = &networkd_stats.interfaces_state;
    let mut i: usize = 0;
    proof {
        assert(ifaces@.take(0) =~= Seq::<crate::networkd::InterfaceState>::empty());
        assert(entries_view(out@) =~= head + interfaces_entries(base@, ifaces@.take(0)));
    }
    while i < ifaces.len()
        invariant
            i <= ifaces.len(),
            entries_view(out@) == head + interfaces_entries(base@, ifaces@.take(i as int)),
        decreases ifaces.len() - i,
    {
        let iface = &ifaces[i];
        proof {
            assert(ifaces@.take(i + 1).drop_last() =~= ifaces@.take(i as int));
            assert(ifaces@.take(i + 1).last() == *iface);
        }
        let b_s = dot(base, iface.name.as_str());
        let b = b_s.as_str();
        let ghost start = entries_view(out@);
        push_value(&mut out, b, "address_state", FlatValue::Unsigned(iface.address_state.as_u64()));
        push_value(&mut out, b, "admin_state", FlatValue::Unsigned(iface.admin_state.as_u64()));
        push_value(&mut out, b, "carrier_state", FlatValue::Unsigned(iface.carrier_state.as_u64()));
        push_value(&mut out, b, "ipv4_address_state", FlatValue::Unsigned(iface.ipv4_address_state.as_u64()));
        push_value(&mut out, b, "ipv6_address_state", FlatValue::Unsigned(iface.ipv6_address_state.as_u64()));
        push_value(&mut out, b, "oper_state", FlatValue::Unsigned(iface.oper_state.as_u64()));
        push_value(&mut out, b, "required_for_online", FlatValue::Unsigned(iface.required_for_online.as_u64()));
        proof {
            assert(entries_view(out@) =~= start + interface_entries(b@, *iface));
            assert(entries_view(out@) =~= head + interfaces_entries(base@, ifaces@.take(i + 1)));
        }
        i = i + 1;
    }
    proof {
        assert(ifaces@.take(i as int) =~= ifaces@);
    }
    out
}

/// The entries of a count map's items, each under `base.<key><suffix>`.
pub open spec fn count_entries(base: Seq<char>, suffix: Seq<char>, items: Seq<(Seq<char>, u64)>) -> Seq<(Seq<char>, FlatValue)>
    decreases items.len(),
{
    if items.len() == 0 {
        Seq::empty()
    } else {
        count_entries(base, suffix, items.drop_last()).push(
            (dotted(base, items.last().0 + suffix), FlatValue::Unsigned(items.last().1)),
        )
    }
}

fn push_counts(out: &mut FlatEntries, base: &str, suffix: &str, m: &crate::strmap::StrMap<u64>)
    ensures
        entries_view(final(out)@) == entries_view(old(out)@) + count_entries(base@, suffix@, m.items()),
{
    let ghost start = entries_view(out@);
    let n = m.len();
    let ghost items = m.items();
    let mut i: usize = 0;
    proof {
        assert(items.take(0) =~= Seq::<(Seq<char>, u64)>::empty());
        assert(entries_view(out@) =~= start + count_entries(base@, suffix@, items.take(0)));
    }
    while i < n
        invariant
            i <= n,
            n == items.len(),
            items == m.items(),
            entries_view(out@) == start + count_entries(base@, suffix@, items.take(i as int)),
        decreases n - i,
    {
        let (k, c) = m.entry_at(i);
        proof {
            assert(items.take(i + 1).drop_last() =~= items.take(i as int));
            assert(items.take(i + 1).last() == items[i as int]);
        }
        let mut key = string_of(k.as_str());
        push_str(&mut key, suffix);
        push_value(out, base, key.as_str(), FlatValue::Unsigned(*c));
        proof {
            assert(entries_view(out@) =~= start + count_entries(base@, suffix@, items.take(i + 1)));
        }
        i = i + 1;
    }
    proof {
        assert(items.take(i as int) =~= items);
    }
}

/// Flatten verification failures under `<prefix>.verify.failing`: the
/// total, then each type's count; no stats, no entries.
pub fn flatten_verify_stats(optional_verify_stats: &Option<crate::verify::VerifyStats>, key_prefix: &str) -> (r: FlatEntries)
    ensures
        entries_view(r@) == verify_flat(key_prefix@, *optional_verify_stats),
{
    let mut out: FlatEntries = Vec::new();
    match optional_verify_stats {
        None => {
            assert(entries_view(out@) =~= Seq::<(Seq<char>, FlatValue)>::empty());
        },
        Some(v) => {
            let base_s = gen_base_metric_key(key_prefix, "verify.failing");
            let base = base_s.as_str();
            push_value(&mut out, base, "total", FlatValue::Unsigned(v.total));
            push_counts(&mut out, base, "", &v.by_type);
            proof {
                reveal_strlit("");
                assert(""@ =~= Seq::<char>::empty());
            }
        },
    }
    out
}

/// The entries of one scope's unit file counts under `base`.
pub open spec fn scope_entries(base: Seq<char>, scope: crate::units::UnitFilesScope) -> Seq<(Seq<char>, FlatValue)> {
    count_entries(dotted(base, "generated"@), "_units"@, scope.generated.items()) + count_entries(
        dotted(base, "transient"@),
        "_units"@,
        scope.transient.items(),
    )
}

/// Flatten unit file counts under `<prefix>.unit_files.root` and
/// `.user`, as `generated.<type>_units` and `transient.<type>_units`.
pub fn flatten_unit_files(unit_files: &crate::units::UnitFilesStats, key_prefix: &str) -> (r: FlatEntries)
    ensures
        entries_view(r@) == unit_files_flat(key_prefix@, *unit_files),
{
    let mut out: FlatEntries = Vec::new();
    let base_s = gen_base_metric_key(key_prefix, "unit_files");
    let root = dot(base_s.as_str(), "root");
    let user = dot(base_s.as_str(), "user");
    let rg = dot(root.as_str(), "generated");
    let rt = dot(root.as_str(), "transient");
    let ug = dot(user.as_str(), "generated");
    let ut = dot(user.as_str(), "transient");
    proof {
        assert(entries_view(out@) =~= Seq::<(Seq<char>, FlatValue)>::empty());
    }
    push_counts(&mut out, rg.as_str(), "_units", &unit_files.root.generated);
    push_counts(&mut out, rt.as_str(), "_units", &unit_files.root.transient);
    push_counts(&mut out, ug.as_str(), "_units", &unit_files.user.generated);
    push_counts(&mut out, ut.as_str(), "_units", &unit_files.user.transient);
    proof {
        let b = metric_key(key_prefix@, "unit_files"@);
        assert(entries_view(out@) =~= scope_entries(dotted(b, "root"@), unit_files.root) + scope_entries(
            dotted(b, "user"@),
            unit_files.user,
        ));
    }
    out
}


/// The flattened networkd state.
pub open spec fn networkd_flat(prefix: Seq<char>, n: crate::networkd::NetworkdState) -> Seq<(Seq<char>, FlatValue)> {
    seq![(dotted(metric_key(prefix, "networkd"@), "managed_interfaces"@), FlatValue::Unsigned(n.managed_interfaces))]
        + interfaces_entries(metric_key(prefix, "networkd"@), n.interfaces_state@)
}

/// The flattened PID 1 stats.
pub open spec fn pid1_flat(prefix: Seq<char>, p: Option<crate::pid1::Pid1Stats>) -> Seq<(Seq<char>, FlatValue)> {
    match p {
        Some(p) => pid1_entries(metric_key(prefix, "pid1"@), p),
        None => Seq::empty(),
    }
}

/// The flattened system state: its number.
pub open spec fn system_state_flat(prefix: Seq<char>, s: crate::system::SystemdSystemState) -> Seq<(Seq<char>, FlatValue)> {
    seq![(metric_key(prefix, "system-state"@), FlatValue::Unsigned(crate::system::system_state_number(s) as u64))]
}

/// The flattened verification failures.
pub open spec fn verify_flat(prefix: Seq<char>, v: Option<crate::verify::VerifyStats>) -> Seq<(Seq<char>, FlatValue)> {
    match v {
        Some(v) => seq![(dotted(metric_key(prefix, "verify.failing"@), "total"@), FlatValue::Unsigned(v.total))]
            + count_entries(metric_key(prefix, "verify.failing"@), Seq::empty(), v.by_type.items()),
        None => Seq::empty(),
    }
}

/// The flattened unit file counts.
pub open spec fn unit_files_flat(prefix: Seq<char>, u: crate::units::UnitFilesStats) -> Seq<(Seq<char>, FlatValue)> {
    scope_entries(dotted(metric_key(prefix, "unit_files"@), "root"@), u.root) + scope_entries(
        dotted(metric_key(prefix, "unit_files"@), "user"@),
        u.user,
    )
}

fn flatten_system_state(s: crate::system::SystemdSystemState, key_prefix: &str) -> (r: FlatEntries)
    ensures
        entries_view(r@) == system_state_flat(key_prefix@, s),
{
    let k = gen_base_metric_key(key_prefix, "system-state");
    let mut out: FlatEntries = Vec::new();
    out.push((k, FlatValue::Unsigned(s.as_u64())));
    proof {
        assert(entries_view(out@) =~= system_state_flat(key_prefix@, s));
    }
    out
}

fn append_entries(out: &mut FlatEntries, more: FlatEntries)
    ensures
        entries_view(final(out)@) == entries_view(old(out)@) + entries_view(more@),
{
    let ghost added = more@;
    let mut more = more;
    out.append(&mut more);
    proof {
        assert(entries_view(out@) =~= entries_view(old(out)@) + entries_view(added));
    }
}

/// The key prefix of a machine: `machines.<name>` under the configured
/// prefix.
pub open spec fn machine_prefix(prefix: Seq<char>, machine: Seq<char>) -> Seq<char> {
    if prefix.len() == 0 {
        "machines."@ + machine
    } else {
        prefix + ".machines."@ + machine
    }
}

/// The flattened integer stats of one machine, in the order networkd,
/// units, unit files, PID 1, system state, services, timers, verification.
pub open spec fn machine_flat(p: Seq<char>, s: crate::MachineStats) -> Seq<(Seq<char>, FlatValue)> {
    networkd_flat(p, s.networkd) + counter_entries_units(metric_key(p, "units"@), crate::units::counters_of(s.units))
        + unit_files_flat(p, s.units.unit_files) + pid1_flat(p, s.pid1) + system_state_flat(p, s.system_state)
        + service_map_entries(metric_key(p, "services"@), s.units.service_stats.items()) + timer_map_entries(
        metric_key(p, "timers"@),
        s.units.timer_stats.items(),
    ) + verify_flat(p, s.verify_stats)
}

/// Flatten a container's integer stats under its machine prefix.
pub fn flatten_machine(stats: &crate::MachineStats, machine: &str, key_prefix: &str) -> (r: FlatEntries)
    ensures
        entries_view(r@) == machine_flat(machine_prefix(key_prefix@, machine@), *stats),
{
    let mp = if key_prefix.is_empty() {
        let mut m = string_of("machines.");
        push_str(&mut m, machine);
        m
    } else {
        let mut m = string_of(key_prefix);
        push_str(&mut m, ".machines.");
        push_str(&mut m, machine);
        m
    };
    let p = mp.as_str();
    let mut out: FlatEntries = Vec::new();
    proof {
        assert(entries_view(out@) =~= Seq::<(Seq<char>, FlatValue)>::empty());
    }
    append_entries(&mut out, flatten_networkd(&stats.networkd, p));
    append_entries(&mut out, flatten_units(&stats.units, p));
    append_entries(&mut out, flatten_unit_files(&stats.units.unit_files, p));
    append_entries(&mut out, flatten_pid1(&stats.pid1, p));
    append_entries(&mut out, flatten_system_state(stats.system_state, p));
    append_entries(&mut out, flatten_services(&stats.units.service_stats, p));
    append_entries(&mut out, flatten_timers(&stats.units.timer_stats, p));
    append_entries(&mut out, flatten_verify_stats(&stats.verify_stats, p));
    proof {
        assert(entries_view(out@) =~= machine_flat(p@, *stats));
    }
    out
}

} // verus!
