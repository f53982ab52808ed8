//! Laws of the flattened keys: every key written under a non-empty key
//! prefix begins with that prefix and a dot, and each field is flattened
//! under its own name with its own value.
use vstd::prelude::*;

use crate::dbus_stats::{
    cgroup_counters, peer_counters, peer_name, peer_values, DBusBrokerCGroupAccounting,
    DBusBrokerPeerAccounting, DBusBrokerUserAccounting, DBusStats,
};
use crate::json::{
    cgroup_entries_flat, cgroup_part, count_entries, counter_entries, counter_entries_units, daemon_entries,
    dotted, interface_entries, interfaces_entries, machine_flat, machine_prefix, metric_key, networkd_flat,
    opt_entry, peer_entries_flat, peer_part, pid1_entries, pid1_flat, scope_entries, service_entries,
    service_map_entries, system_state_flat, timer_entries, timer_map_entries, unit_files_flat,
    unit_state_entries, unit_state_map_entries, usage_entry, user_entries_flat, user_part, verify_flat,
    FlatValue,
};
use crate::strmap::StrMap;
use crate::units::UnitCounters;

verus! {

/// Every key of `es` begins with `q`.
pub open spec fn keys_begin_with(es: Seq<(Seq<char>, FlatValue)>, q: Seq<char>) -> bool {
    forall|i: int| 0 <= i < es.len() ==> q.is_prefix_of(#[trigger] es[i].0)
}

/// A dotted key keeps every prefix of its base.
pub broadcast proof fn lemma_dotted_keeps_prefix(q: Seq<char>, b: Seq<char>, f: Seq<char>)
    requires
        q.is_prefix_of(b),
    ensures
        #[trigger] q.is_prefix_of(dotted(b, f)),
{
    assert(dotted(b, f).subrange(0, q.len() as int) =~= b.subrange(0, q.len() as int));
}

/// Joining two runs of entries keeps a prefix that both keep.
pub broadcast proof fn lemma_join_keeps_prefix(a: Seq<(Seq<char>, FlatValue)>, b: Seq<(Seq<char>, FlatValue)>, q: Seq<char>)
    requires
        keys_begin_with(a, q),
        keys_begin_with(b, q),
    ensures
        #[trigger] keys_begin_with(a + b, q),
{
    assert forall|i: int| 0 <= i < (a + b).len() implies q.is_prefix_of(#[trigger] (a + b)[i].0) by {
        if i < a.len() {
            assert((a + b)[i] == a[i]);
        } else {
            assert((a + b)[i] == b[i - a.len()]);
        }
    }
}

/// Under a non-empty prefix, `prefix.name` begins with `prefix.`.
pub proof fn lemma_metric_key_prefix(prefix: Seq<char>, name: Seq<char>)
    requires
        prefix.len() > 0,
    ensures
        (prefix + "."@).is_prefix_of(metric_key(prefix, name)),
{
    let q = prefix + "."@;
    assert(metric_key(prefix, name) =~= q + name);
    assert((q + name).subrange(0, q.len() as int) =~= q);
}

broadcast proof fn lemma_opt_entry(q: Seq<char>, base: Seq<char>, f: Seq<char>, v: Option<u32>)
    requires
        q.is_prefix_of(base),
    ensures
        #[trigger] keys_begin_with(opt_entry(base, f, v), q),
{
    broadcast use lemma_dotted_keeps_prefix;
}

broadcast proof fn lemma_usage_entry(q: Seq<char>, base: Seq<char>, f: Seq<char>, p: Option<crate::dbus_stats::CurMaxPair>)
    requires
        q.is_prefix_of(base),
    ensures
        #[trigger] keys_begin_with(usage_entry(base, f, p), q),
{
    broadcast use lemma_dotted_keeps_prefix;
}

proof fn lemma_counter_entries(q: Seq<char>, base: Seq<char>, c: crate::dbus_stats::Counters)
    requires
        q.is_prefix_of(base),
    ensures
        keys_begin_with(counter_entries(base, c), q),
{
    let e0 = opt_entry(base, "name_objects"@, c.name_objects);
    let e1 = opt_entry(base, "match_bytes"@, c.match_bytes);
    let e2 = opt_entry(base, "matches"@, c.matches);
    let e3 = opt_entry(base, "reply_objects"@, c.reply_objects);
    let e4 = opt_entry(base, "incoming_bytes"@, c.incoming_bytes);
    let e5 = opt_entry(base, "incoming_fds"@, c.incoming_fds);
    let e6 = opt_entry(base, "outgoing_bytes"@, c.outgoing_bytes);
    let e7 = opt_entry(base, "outgoing_fds"@, c.outgoing_fds);
    let e8 = opt_entry(base, "activation_request_bytes"@, c.activation_request_bytes);
    let e9 = opt_entry(base, "activation_request_fds"@, c.activation_request_fds);
    lemma_opt_entry(q, base, "name_objects"@, c.name_objects);
    lemma_opt_entry(q, base, "match_bytes"@, c.match_bytes);
    lemma_opt_entry(q, base, "matches"@, c.matches);
    lemma_opt_entry(q, base, "reply_objects"@, c.reply_objects);
    lemma_opt_entry(q, base, "incoming_bytes"@, c.incoming_bytes);
    lemma_opt_entry(q, base, "incoming_fds"@, c.incoming_fds);
    lemma_opt_entry(q, base, "outgoing_bytes"@, c.outgoing_bytes);
    lemma_opt_entry(q, base, "outgoing_fds"@, c.outgoing_fds);
    lemma_opt_entry(q, base, "activation_request_bytes"@, c.activation_request_bytes);
    lemma_opt_entry(q, base, "activation_request_fds"@, c.activation_request_fds);
    lemma_join_keeps_prefix(e0, e1, q);
    lemma_join_keeps_prefix(e0 + e1, e2, q);
    lemma_join_keeps_prefix(e0 + e1 + e2, e3, q);
    lemma_join_keeps_prefix(e0 + e1 + e2 + e3, e4, q);
    lemma_join_keeps_prefix(e0 + e1 + e2 + e3 + e4, e5, q);
    lemma_join_keeps_prefix(e0 + e1 + e2 + e3 + e4 + e5, e6, q);
    lemma_join_keeps_prefix(e0 + e1 + e2 + e3 + e4 + e5 + e6, e7, q);
    lemma_join_keeps_prefix(e0 + e1 + e2 + e3 + e4 + e5 + e6 + e7, e8, q);
    lemma_join_keeps_prefix(e0 + e1 + e2 + e3 + e4 + e5 + e6 + e7 + e8, e9, q);
}

proof fn lemma_daemon_entries(q: Seq<char>, base: Seq<char>, s: DBusStats)
    requires
        q.is_prefix_of(base),
    ensures
        keys_begin_with(daemon_entries(base, s), q),
{
    broadcast use lemma_opt_entry, lemma_join_keeps_prefix;
}

proof fn lemma_peer_entries(q: Seq<char>, base: Seq<char>, peers: Seq<DBusBrokerPeerAccounting>)
    requires
        q.is_prefix_of(base),
    ensures
        keys_begin_with(peer_entries_flat(base, peers), q),
    decreases peers.len(),
{
    broadcast use lemma_dotted_keeps_prefix, lemma_join_keeps_prefix;
    if peers.len() > 0 {
        lemma_peer_entries(q, base, peers.drop_last());
        lemma_counter_entries(q, dotted(dotted(base, "peer"@), peer_name(peers.last())), peer_counters(peers.last()));
    }
}

proof fn lemma_cgroup_entries(q: Seq<char>, base: Seq<char>, cgroups: Seq<DBusBrokerCGroupAccounting>)
    requires
        q.is_prefix_of(base),
    ensures
        keys_begin_with(cgroup_entries_flat(base, cgroups), q),
    decreases cgroups.len(),
{
    broadcast use lemma_dotted_keeps_prefix, lemma_join_keeps_prefix;
    if cgroups.len() > 0 {
        lemma_cgroup_entries(q, base, cgroups.drop_last());
        lemma_counter_entries(q, dotted(dotted(base, "cgroup"@), cgroups.last().name@), cgroup_counters(cgroups.last()));
    }
}

proof fn lemma_user_entries(q: Seq<char>, base: Seq<char>, users: Seq<DBusBrokerUserAccounting>)
    requires
        q.is_prefix_of(base),
    ensures
        keys_begin_with(user_entries_flat(base, users), q),
    decreases users.len(),
{
    broadcast use lemma_dotted_keeps_prefix, lemma_join_keeps_prefix, lemma_usage_entry;
    if users.len() > 0 {
        lemma_user_entries(q, base, users.drop_last());
        let u = users.last();
        let b = dotted(dotted(base, "user"@), u.username@);
        assert(q.is_prefix_of(b));
    }
}

proof fn lemma_service_map(q: Seq<char>, base: Seq<char>, items: Seq<(Seq<char>, crate::units::ServiceStats)>)
    requires
        q.is_prefix_of(base),
    ensures
        keys_begin_with(service_map_entries(base, items), q),
    decreases items.len(),
{
    broadcast use lemma_dotted_keeps_prefix, lemma_join_keeps_prefix;
    if items.len() > 0 {
        lemma_service_map(q, base, items.drop_last());
        assert(q.is_prefix_of(dotted(base, items.last().0)));
        assert(keys_begin_with(service_entries(dotted(base, items.last().0), items.last().1), q));
    }
}

proof fn lemma_timer_map(q: Seq<char>, base: Seq<char>, items: Seq<(Seq<char>, crate::timer::TimerStats)>)
    requires
        q.is_prefix_of(base),
    ensures
        keys_begin_with(timer_map_entries(base, items), q),
    decreases items.len(),
{
    broadcast use lemma_dotted_keeps_prefix, lemma_join_keeps_prefix;
    if items.len() > 0 {
        lemma_timer_map(q, base, items.drop_last());
        assert(q.is_prefix_of(dotted(base, items.last().0)));
        assert(keys_begin_with(timer_entries(dotted(base, items.last().0), items.last().1), q));
    }
}

proof fn lemma_unit_state_map(q: Seq<char>, base: Seq<char>, items: Seq<(Seq<char>, crate::units::UnitStates)>)
    requires
        q.is_prefix_of(base),
    ensures
        keys_begin_with(unit_state_map_entries(base, items), q),
    decreases items.len(),
{
    broadcast use lemma_dotted_keeps_prefix, lemma_join_keeps_prefix;
    if items.len() > 0 {
        lemma_unit_state_map(q, base, items.drop_last());
        let b = dotted(base, items.last().0);
        assert(q.is_prefix_of(b));
        assert(keys_begin_with(unit_state_entries(b, items.last().1), q));
    }
}

proof fn lemma_interfaces(q: Seq<char>, base: Seq<char>, ifaces: Seq<crate::networkd::InterfaceState>)
    requires
        q.is_prefix_of(base),
    ensures
        keys_begin_with(interfaces_entries(base, ifaces), q),
    decreases ifaces.len(),
{
    broadcast use lemma_dotted_keeps_prefix, lemma_join_keeps_prefix;
    if ifaces.len() > 0 {
        lemma_interfaces(q, base, ifaces.drop_last());
        let b = dotted(base, ifaces.last().name@);
        assert(q.is_prefix_of(b));
        assert(keys_begin_with(interface_entries(b, ifaces.last()), q));
    }
}

proof fn lemma_count_entries(q: Seq<char>, base: Seq<char>, suffix: Seq<char>, items: Seq<(Seq<char>, u64)>)
    requires
        q.is_prefix_of(base),
    ensures
        keys_begin_with(count_entries(base, suffix, items), q),
    decreases items.len(),
{
    broadcast use lemma_dotted_keeps_prefix;
    if items.len() > 0 {
        lemma_count_entries(q, base, suffix, items.drop_last());
        assert(q.is_prefix_of(dotted(base, items.last().0 + suffix)));
    }
}

proof fn lemma_scope_entries(q: Seq<char>, base: Seq<char>, scope: crate::units::UnitFilesScope)
    requires
        q.is_prefix_of(base),
    ensures
        keys_begin_with(scope_entries(base, scope), q),
{
    broadcast use lemma_dotted_keeps_prefix, lemma_join_keeps_prefix;
    lemma_count_entries(q, dotted(base, "generated"@), "_units"@, scope.generated.items());
    lemma_count_entries(q, dotted(base, "transient"@), "_units"@, scope.transient.items());
}

/// Every key of a machine's or the host's flattened integer stats under a
/// non-empty prefix `p` begins with `p.`.
pub proof fn lemma_flat_keys_carry_prefix(p: Seq<char>, s: crate::MachineStats)
    requires
        p.len() > 0,
    ensures
        keys_begin_with(machine_flat(p, s), p + "."@),
        keys_begin_with(
            unit_state_map_entries(metric_key(p, "unit_states"@), s.units.unit_states.items()),
            p + "."@,
        ),
{
    broadcast use lemma_dotted_keeps_prefix, lemma_join_keeps_prefix;
    let q = p + "."@;
    lemma_metric_key_prefix(p, "networkd"@);
    lemma_metric_key_prefix(p, "units"@);
    lemma_metric_key_prefix(p, "unit_files"@);
    lemma_metric_key_prefix(p, "pid1"@);
    lemma_metric_key_prefix(p, "system-state"@);
    lemma_metric_key_prefix(p, "services"@);
    lemma_metric_key_prefix(p, "timers"@);
    lemma_metric_key_prefix(p, "verify.failing"@);
    lemma_metric_key_prefix(p, "unit_states"@);
    let n = s.networkd;
    lemma_interfaces(q, metric_key(p, "networkd"@), n.interfaces_state@);
    assert(keys_begin_with(networkd_flat(p, n), q));
    assert(keys_begin_with(
        counter_entries_units(metric_key(p, "units"@), crate::units::counters_of(s.units)),
        q,
    ));
    let uf = metric_key(p, "unit_files"@);
    lemma_scope_entries(q, dotted(uf, "root"@), s.units.unit_files.root);
    lemma_scope_entries(q, dotted(uf, "user"@), s.units.unit_files.user);
    assert(keys_begin_with(unit_files_flat(p, s.units.unit_files), q));
    match s.pid1 {
        Some(x) => {
            lemma_pid1_entries(q, metric_key(p, "pid1"@), x);
        },
        None => {},
    }
    assert(keys_begin_with(pid1_flat(p, s.pid1), q));
    assert(keys_begin_with(system_state_flat(p, s.system_state), q));
    lemma_service_map(q, metric_key(p, "services"@), s.units.service_stats.items());
    lemma_timer_map(q, metric_key(p, "timers"@), s.units.timer_stats.items());
    match s.verify_stats {
        Some(v) => {
            lemma_count_entries(q, metric_key(p, "verify.failing"@), Seq::empty(), v.by_type.items());
        },
        None => {},
    }
    assert(keys_begin_with(verify_flat(p, s.verify_stats), q));
    lemma_unit_state_map(q, metric_key(p, "unit_states"@), s.units.unit_states.items());
}

/// Every key of a container's flattened stats under a non-empty key
/// prefix begins with that prefix and a dot.
pub proof fn lemma_machine_keys_carry_prefix(prefix: Seq<char>, machine: Seq<char>, s: crate::MachineStats)
    requires
        prefix.len() > 0,
    ensures
        keys_begin_with(machine_flat(machine_prefix(prefix, machine), s), prefix + "."@),
{
    let q = prefix + "."@;
    let mp = machine_prefix(prefix, machine);
    assert(mp =~= q + ("machines."@ + machine)) by {
        reveal_strlit(".machines.");
        reveal_strlit(".");
        reveal_strlit("machines.");
    }
    assert(mp.subrange(0, q.len() as int) =~= q);
    lemma_flat_keys_carry_prefix(mp, s);
    let mq = mp + "."@;
    assert(mq.subrange(0, q.len() as int) =~= q);
    assert forall|i: int| 0 <= i < machine_flat(mp, s).len() implies q.is_prefix_of(
        #[trigger] machine_flat(mp, s)[i].0,
    ) by {
        let k = machine_flat(mp, s)[i].0;
        assert(mq.is_prefix_of(k));
        assert(k.subrange(0, q.len() as int) =~= mq.subrange(0, q.len() as int));
    }
}

/// Every key of flattened D-Bus stats under a non-empty key prefix begins
/// with that prefix and a dot, whichever cgroup accounting is flattened.
pub proof fn lemma_dbus_keys_carry_prefix(
    prefix: Seq<char>,
    s: DBusStats,
    cg: Option<StrMap<DBusBrokerCGroupAccounting>>,
)
    requires
        prefix.len() > 0,
    ensures
        ({
            let base = metric_key(prefix, "dbus"@);
            keys_begin_with(
                daemon_entries(base, s) + peer_part(base, s) + cgroup_part(base, cg) + user_part(base, s),
                prefix + "."@,
            )
        }),
{
    broadcast use lemma_join_keeps_prefix;
    let q = prefix + "."@;
    let base = metric_key(prefix, "dbus"@);
    lemma_metric_key_prefix(prefix, "dbus"@);
    lemma_daemon_entries(q, base, s);
    match s.dbus_broker_peer_accounting {
        Some(pa) => {
            lemma_peer_entries(q, base, peer_values(pa));
        },
        None => {},
    }
    match cg {
        Some(m) => {
            lemma_cgroup_entries(q, base, m.items().map_values(|e: (Seq<char>, DBusBrokerCGroupAccounting)| e.1));
        },
        None => {},
    }
    match s.dbus_broker_user_accounting {
        Some(u) => {
            lemma_user_entries(q, base, u@);
        },
        None => {},
    }
    assert(keys_begin_with(peer_part(base, s), q));
    assert(keys_begin_with(cgroup_part(base, cg), q));
    assert(keys_begin_with(user_part(base, s), q));
}

proof fn lemma_pid1_entries(q: Seq<char>, base: Seq<char>, p: crate::pid1::Pid1Stats)
    requires
        q.is_prefix_of(base),
    ensures
        keys_begin_with(pid1_entries(base, p), q),
{
    broadcast use lemma_dotted_keeps_prefix;
}


/// `es` has an entry keyed `key`, and every entry keyed `key` carries `v`.
pub open spec fn entry_with_key(es: Seq<(Seq<char>, FlatValue)>, key: Seq<char>, v: FlatValue) -> bool {
    &&& exists|i: int| 0 <= i < es.len() && #[trigger] es[i].0 == key
    &&& forall|i: int| 0 <= i < es.len() && #[trigger] es[i].0 == key ==> es[i].1 == v
}

/// A dotted key names its field: two keys dotted onto one base are equal
/// only when the fields are.
proof fn lemma_dotted_injective(b: Seq<char>, f: Seq<char>, g: Seq<char>)
    requires
        dotted(b, f) == dotted(b, g),
    ensures
        f == g,
{
    reveal_strlit(".");
    assert(f =~= dotted(b, f).skip(b.len() + 1int));
    assert(g =~= dotted(b, g).skip(b.len() + 1int));
}

/// The value of the field of the unit counters that `f` names, if it names one.
pub open spec fn unit_counter_named(c: UnitCounters, f: Seq<char>) -> Option<FlatValue> {
    if f == "loaded_units"@ {
        Some(FlatValue::Unsigned(c.loaded_units))
    } else if f == "timer_remain_after_elapse"@ {
        Some(FlatValue::Unsigned(c.timer_remain_after_elapse))
    } else if f == "target_units"@ {
        Some(FlatValue::Unsigned(c.target_units))
    } else if f == "slice_units"@ {
        Some(FlatValue::Unsigned(c.slice_units))
    } else if f == "path_units"@ {
        Some(FlatValue::Unsigned(c.path_units))
    } else if f == "service_units"@ {
        Some(FlatValue::Unsigned(c.service_units))
    } else if f == "total_units"@ {
        Some(FlatValue::Unsigned(c.total_units))
    } else if f == "jobs_queued"@ {
        Some(FlatValue::Unsigned(c.jobs_queued))
    } else if f == "timer_units"@ {
        Some(FlatValue::Unsigned(c.timer_units))
    } else if f == "timer_persistent_units"@ {
        Some(FlatValue::Unsigned(c.timer_persistent_units))
    } else if f == "socket_units"@ {
        Some(FlatValue::Unsigned(c.socket_units))
    } else if f == "masked_units"@ {
        Some(FlatValue::Unsigned(c.masked_units))
    } else if f == "activating_units"@ {
        Some(FlatValue::Unsigned(c.activating_units))
    } else if f == "mount_units"@ {
        Some(FlatValue::Unsigned(c.mount_units))
    } else if f == "inactive_units"@ {
        Some(FlatValue::Unsigned(c.inactive_units))
    } else if f == "device_units"@ {
        Some(FlatValue::Unsigned(c.device_units))
    } else if f == "automount_units"@ {
        Some(FlatValue::Unsigned(c.automount_units))
    } else if f == "active_units"@ {
        Some(FlatValue::Unsigned(c.active_units))
    } else if f == "scope_units"@ {
        Some(FlatValue::Unsigned(c.scope_units))
    } else if f == "failed_units"@ {
        Some(FlatValue::Unsigned(c.failed_units))
    } else if f == "not_found_units"@ {
        Some(FlatValue::Unsigned(c.not_found_units))
    } else {
        None
    }
}

/// Each field of the unit counters is flattened under its own name: an entry keyed
/// `<base>.<f>` carries the value of the field `f` names, and each field
/// has an entry.
pub proof fn lemma_unit_counter_entries_by_name(base: Seq<char>, c: UnitCounters, f: Seq<char>)
    ensures
        forall|i: int| 0 <= i < counter_entries_units(base, c).len() && #[trigger] counter_entries_units(base, c)[i].0 == dotted(base, f) ==> unit_counter_named(c, f) == Some(counter_entries_units(base, c)[i].1),
        unit_counter_named(c, f) is Some ==> exists|i: int| 0 <= i < counter_entries_units(base, c).len() && #[trigger] counter_entries_units(base, c)[i].0 == dotted(base, f),
{
    let es = counter_entries_units(base, c);
    reveal_strlit("activating_units");
    reveal_strlit("active_units");
    reveal_strlit("automount_units");
    reveal_strlit("device_units");
    reveal_strlit("failed_units");
    reveal_strlit("inactive_units");
    reveal_strlit("jobs_queued");
    reveal_strlit("loaded_units");
    reveal_strlit("masked_units");
    reveal_strlit("mount_units");
    reveal_strlit("not_found_units");
    reveal_strlit("path_units");
    reveal_strlit("scope_units");
    reveal_strlit("service_units");
    reveal_strlit("slice_units");
    reveal_strlit("socket_units");
    reveal_strlit("target_units");
    reveal_strlit("timer_units");
    reveal_strlit("timer_persistent_units");
    reveal_strlit("timer_remain_after_elapse");
    reveal_strlit("total_units");
    assert forall|i: int| 0 <= i < es.len() && #[trigger] es[i].0 == dotted(base, f) implies unit_counter_named(c, f) == Some(es[i].1) by {
        if i == 0 {
            assert(es[i].0 == dotted(base, "activating_units"@));
            lemma_dotted_injective(base, f, "activating_units"@);
            assert("activating_units"@.len() != "active_units"@.len());
            assert("activating_units"@.len() != "automount_units"@.len());
            assert("activating_units"@.len() != "device_units"@.len());
            assert("activating_units"@.len() != "failed_units"@.len());
            assert("activating_units"@.len() != "inactive_units"@.len());
            assert("activating_units"@.len() != "jobs_queued"@.len());
            assert("activating_units"@.len() != "loaded_units"@.len());
            assert("activating_units"@.len() != "masked_units"@.len());
            assert("activating_units"@.len() != "mount_units"@.len());
            assert("activating_units"@.len() != "not_found_units"@.len());
            assert("activating_units"@.len() != "path_units"@.len());
            assert("activating_units"@.len() != "scope_units"@.len());
            assert("activating_units"@.len() != "service_units"@.len());
            assert("activating_units"@.len() != "slice_units"@.len());
            assert("activating_units"@.len() != "socket_units"@.len());
            assert("activating_units"@.len() != "target_units"@.len());
            assert("activating_units"@.len() != "timer_units"@.len());
            assert("activating_units"@.len() != "timer_persistent_units"@.len());
            assert("activating_units"@.len() != "timer_remain_after_elapse"@.len());
            assert("activating_units"@.len() != "total_units"@.len());
        } else if i == 1 {
            assert(es[i].0 == dotted(base, "active_units"@));
            lemma_dotted_injective(base, f, "active_units"@);
            assert("active_units"@.len() != "activating_units"@.len());
            assert("active_units"@.len() != "automount_units"@.len());
            assert("active_units"@[0] != "device_units"@[0]);
            assert("active_units"@[0] != "failed_units"@[0]);
            assert("active_units"@.len() != "inactive_units"@.len());
            assert("active_units"@.len() != "jobs_queued"@.len());
            assert("active_units"@[0] != "loaded_units"@[0]);
            assert("active_units"@[0] != "masked_units"@[0]);
            assert("active_units"@.len() != "mount_units"@.len());
            assert("active_units"@.len() != "not_found_units"@.len());
            assert("active_units"@.len() != "path_units"@.len());
            assert("active_units"@.len() != "scope_units"@.len());
            assert("active_units"@.len() != "service_units"@.len());
            assert("active_units"@.len() != "slice_units"@.len());
            assert("active_units"@[0] != "socket_units"@[0]);
            assert("active_units"@[0] != "target_units"@[0]);
            assert("active_units"@.len() != "timer_units"@.len());
            assert("active_units"@.len() != "timer_persistent_units"@.len());
            assert("active_units"@.len() != "timer_remain_after_elapse"@.len());
            assert("active_units"@.len() != "total_units"@.len());
        } else if i == 2 {
            assert(es[i].0 == dotted(base, "automount_units"@));
            lemma_dotted_injective(base, f, "automount_units"@);
            assert("automount_units"@.len() != "activating_units"@.len());
            assert("automount_units"@.len() != "active_units"@.len());
            assert("automount_units"@.len() != "device_units"@.len());
            assert("automount_units"@.len() != "failed_units"@.len());
            assert("automount_units"@.len() != "inactive_units"@.len());
            assert("automount_units"@.len() != "jobs_queued"@.len());
            assert("automount_units"@.len() != "loaded_units"@.len());
            assert("automount_units"@.len() != "masked_units"@.len());
            assert("automount_units"@.len() != "mount_units"@.len());
            assert("automount_units"@[0] != "not_found_units"@[0]);
            assert("automount_units"@.len() != "path_units"@.len());
            assert("automount_units"@.len() != "scope_units"@.len());
            assert("automount_units"@.len() != "service_units"@.len());
            assert("automount_units"@.len() != "slice_units"@.len());
            assert("automount_units"@.len() != "socket_units"@.len());
            assert("automount_units"@.len() != "target_units"@.len());
            assert("automount_units"@.len() != "timer_units"@.len());
            assert("automount_units"@.len() != "timer_persistent_units"@.len());
            assert("automount_units"@.len() != "timer_remain_after_elapse"@.len());
            assert("automount_units"@.len() != "total_units"@.len());
        } else if i == 3 {
            assert(es[i].0 == dotted(base, "device_units"@));
            lemma_dotted_injective(base, f, "device_units"@);
            assert("device_units"@.len() != "activating_units"@.len());
            assert("device_units"@[0] != "active_units"@[0]);
            assert("device_units"@.len() != "automount_units"@.len());
            assert("device_units"@[0] != "failed_units"@[0]);
            assert("device_units"@.len() != "inactive_units"@.len());
            assert("device_units"@.len() != "jobs_queued"@.len());
            assert("device_units"@[0] != "loaded_units"@[0]);
            assert("device_units"@[0] != "masked_units"@[0]);
            assert("device_units"@.len() != "mount_units"@.len());
            assert("device_units"@.len() != "not_found_units"@.len());
            assert("device_units"@.len() != "path_units"@.len());
            assert("device_units"@.len() != "scope_units"@.len());
            assert("device_units"@.len() != "service_units"@.len());
            assert("device_units"@.len() != "slice_units"@.len());
            assert("device_units"@[0] != "socket_units"@[0]);
            assert("device_units"@[0] != "target_units"@[0]);
            assert("device_units"@.len() != "timer_units"@.len());
            assert("device_units"@.len() != "timer_persistent_units"@.len());
            assert("device_units"@.len() != "timer_remain_after_elapse"@.len());
            assert("device_units"@.len() != "total_units"@.len());
        } else if i == 4 {
            assert(es[i].0 == dotted(base, "failed_units"@));
            lemma_dotted_injective(base, f, "failed_units"@);
            assert("failed_units"@.len() != "activating_units"@.len());
            assert("failed_units"@[0] != "active_units"@[0]);
            assert("failed_units"@.len() != "automount_units"@.len());
            assert("failed_units"@[0] != "device_units"@[0]);
            assert("failed_units"@.len() != "inactive_units"@.len());
            assert("failed_units"@.len() != "jobs_queued"@.len());
            assert("failed_units"@[0] != "loaded_units"@[0]);
            assert("failed_units"@[0] != "masked_units"@[0]);
            assert("failed_units"@.len() != "mount_units"@.len());
            assert("failed_units"@.len() != "not_found_units"@.len());
            assert("failed_units"@.len() != "path_units"@.len());
            assert("failed_units"@.len() != "scope_units"@.len());
            assert("failed_units"@.len() != "service_units"@.len());
            assert("failed_units"@.len() != "slice_units"@.len());
            assert("failed_units"@[0] != "socket_units"@[0]);
            assert("failed_units"@[0] != "target_units"@[0]);
            assert("failed_units"@.len() != "timer_units"@.len());
            assert("failed_units"@.len() != "timer_persistent_units"@.len());
            assert("failed_units"@.len() != "timer_remain_after_elapse"@.len());
            assert("failed_units"@.len() != "total_units"@.len());
        } else if i == 5 {
            assert(es[i].0 == dotted(base, "inactive_units"@));
            lemma_dotted_injective(base, f, "inactive_units"@);
            assert("inactive_units"@.len() != "activating_units"@.len());
            assert("inactive_units"@.len() != "active_units"@.len());
            assert("inactive_units"@.len() != "automount_units"@.len());
            assert("inactive_units"@.len() != "device_units"@.len());
            assert("inactive_units"@.len() != "failed_units"@.len());
            assert("inactive_units"@.len() != "jobs_queued"@.len());
            assert("inactive_units"@.len() != "loaded_units"@.len());
            assert("inactive_units"@.len() != "masked_units"@.len());
            assert("inactive_units"@.len() != "mount_units"@.len());
            assert("inactive_units"@.len() != "not_found_units"@.len());
            assert("inactive_units"@.len() != "path_units"@.len());
            assert("inactive_units"@.len() != "scope_units"@.len());
            assert("inactive_units"@.len() != "service_units"@.len());
            assert("inactive_units"@.len() != "slice_units"@.len());
            assert("inactive_units"@.len() != "socket_units"@.len());
            assert("inactive_units"@.len() != "target_units"@.len());
            assert("inactive_units"@.len() != "timer_units"@.len());
            assert("inactive_units"@.len() != "timer_persistent_units"@.len());
            assert("inactive_units"@.len() != "timer_remain_after_elapse"@.len());
            assert("inactive_units"@.len() != "total_units"@.len());
        } else if i == 6 {
            assert(es[i].0 == dotted(base, "jobs_queued"@));
            lemma_dotted_injective(base, f, "jobs_queued"@);
            assert("jobs_queued"@.len() != "activating_units"@.len());
            assert("jobs_queued"@.len() != "active_units"@.len());
            assert("jobs_queued"@.len() != "automount_units"@.len());
            assert("jobs_queued"@.len() != "device_units"@.len());
            assert("jobs_queued"@.len() != "failed_units"@.len());
            assert("jobs_queued"@.len() != "inactive_units"@.len());
            assert("jobs_queued"@.len() != "loaded_units"@.len());
            assert("jobs_queued"@.len() != "masked_units"@.len());
            assert("jobs_queued"@[0] != "mount_units"@[0]);
            assert("jobs_queued"@.len() != "not_found_units"@.len());
            assert("jobs_queued"@.len() != "path_units"@.len());
            assert("jobs_queued"@[0] != "scope_units"@[0]);
            assert("jobs_queued"@.len() != "service_units"@.len());
            assert("jobs_queued"@[0] != "slice_units"@[0]);
            assert("jobs_queued"@.len() != "socket_units"@.len());
            assert("jobs_queued"@.len() != "target_units"@.len());
            assert("jobs_queued"@[0] != "timer_units"@[0]);
            assert("jobs_queued"@.len() != "timer_persistent_units"@.len());
            assert("jobs_queued"@.len() != "timer_remain_after_elapse"@.len());
            assert("jobs_queued"@[0] != "total_units"@[0]);
        } else if i == 7 {
            assert(es[i].0 == dotted(base, "loaded_units"@));
            lemma_dotted_injective(base, f, "loaded_units"@);
            assert("loaded_units"@.len() != "activating_units"@.len());
            assert("loaded_units"@[0] != "active_units"@[0]);
            assert("loaded_units"@.len() != "automount_units"@.len());
            assert("loaded_units"@[0] != "device_units"@[0]);
            assert("loaded_units"@[0] != "failed_units"@[0]);
            assert("loaded_units"@.len() != "inactive_units"@.len());
            assert("loaded_units"@.len() != "jobs_queued"@.len());
            assert("loaded_units"@[0] != "masked_units"@[0]);
            assert("loaded_units"@.len() != "mount_units"@.len());
            assert("loaded_units"@.len() != "not_found_units"@.len());
            assert("loaded_units"@.len() != "path_units"@.len());
            assert("loaded_units"@.len() != "scope_units"@.len());
            assert("loaded_units"@.len() != "service_units"@.len());
            assert("loaded_units"@.len() != "slice_units"@.len());
            assert("loaded_units"@[0] != "socket_units"@[0]);
            assert("loaded_units"@[0] != "target_units"@[0]);
            assert("loaded_units"@.len() != "timer_units"@.len());
            assert("loaded_units"@.len() != "timer_persistent_units"@.len());
            assert("loaded_units"@.len() != "timer_remain_after_elapse"@.len());
            assert("loaded_units"@.len() != "total_units"@.len());
        } else if i == 8 {
            assert(es[i].0 == dotted(base, "masked_units"@));
            lemma_dotted_injective(base, f, "masked_units"@);
            assert("masked_units"@.len() != "activating_units"@.len());
            assert("masked_units"@[0] != "active_units"@[0]);
            assert("masked_units"@.len() != "automount_units"@.len());
            assert("masked_units"@[0] != "device_units"@[0]);
            assert("masked_units"@[0] != "failed_units"@[0]);
            assert("masked_units"@.len() != "inactive_units"@.len());
            assert("masked_units"@.len() != "jobs_queued"@.len());
            assert("masked_units"@[0] != "loaded_units"@[0]);
            assert("masked_units"@.len() != "mount_units"@.len());
            assert("masked_units"@.len() != "not_found_units"@.len());
            assert("masked_units"@.len() != "path_units"@.len());
            assert("masked_units"@.len() != "scope_units"@.len());
            assert("masked_units"@.len() != "service_units"@.len());
            assert("masked_units"@.len() != "slice_units"@.len());
            assert("masked_units"@[0] != "socket_units"@[0]);
            assert("masked_units"@[0] != "target_units"@[0]);
            assert("masked_units"@.len() != "timer_units"@.len());
            assert("masked_units"@.len() != "timer_persistent_units"@.len());
            assert("masked_units"@.len() != "timer_remain_after_elapse"@.len());
            assert("masked_units"@.len() != "total_units"@.len());
        } else if i == 9 {
            assert(es[i].0 == dotted(base, "mount_units"@));
            lemma_dotted_injective(base, f, "mount_units"@);
            assert("mount_units"@.len() != "activating_units"@.len());
            assert("mount_units"@.len() != "active_units"@.len());
            assert("mount_units"@.len() != "automount_units"@.len());
            assert("mount_units"@.len() != "device_units"@.len());
            assert("mount_units"@.len() != "failed_units"@.len());
            assert("mount_units"@.len() != "inactive_units"@.len());
            assert("mount_units"@[0] != "jobs_queued"@[0]);
            assert("mount_units"@.len() != "loaded_units"@.len());
            assert("mount_units"@.len() != "masked_units"@.len());
            assert("mount_units"@.len() != "not_found_units"@.len());
            assert("mount_units"@.len() != "path_units"@.len());
            assert("mount_units"@[0] != "scope_units"@[0]);
            assert("mount_units"@.len() != "service_units"@.len());
            assert("mount_units"@[0] != "slice_units"@[0]);
            assert("mount_units"@.len() != "socket_units"@.len());
            assert("mount_units"@.len() != "target_units"@.len());
            assert("mount_units"@[0] != "timer_units"@[0]);
            assert("mount_units"@.len() != "timer_persistent_units"@.len());
            assert("mount_units"@.len() != "timer_remain_after_elapse"@.len());
            assert("mount_units"@[0] != "total_units"@[0]);
        } else if i == 10 {
            assert(es[i].0 == dotted(base, "not_found_units"@));
            lemma_dotted_injective(base, f, "not_found_units"@);
            assert("not_found_units"@.len() != "activating_units"@.len());
            assert("not_found_units"@.len() != "active_units"@.len());
            assert("not_found_units"@[0] != "automount_units"@[0]);
            assert("not_found_units"@.len() != "device_units"@.len());
            assert("not_found_units"@.len() != "failed_units"@.len());
            assert("not_found_units"@.len() != "inactive_units"@.len());
            assert("not_found_units"@.len() != "jobs_queued"@.len());
            assert("not_found_units"@.len() != "loaded_units"@.len());
            assert("not_found_units"@.len() != "masked_units"@.len());
            assert("not_found_units"@.len() != "mount_units"@.len());
            assert("not_found_units"@.len() != "path_units"@.len());
            assert("not_found_units"@.len() != "scope_units"@.len());
            assert("not_found_units"@.len() != "service_units"@.len());
            assert("not_found_units"@.len() != "slice_units"@.len());
            assert("not_found_units"@.len() != "socket_units"@.len());
            assert("not_found_units"@.len() != "target_units"@.len());
            assert("not_found_units"@.len() != "timer_units"@.len());
            assert("not_found_units"@.len() != "timer_persistent_units"@.len());
            assert("not_found_units"@.len() != "timer_remain_after_elapse"@.len());
            assert("not_found_units"@.len() != "total_units"@.len());
        } else if i == 11 {
            assert(es[i].0 == dotted(base, "path_units"@));
            lemma_dotted_injective(base, f, "path_units"@);
            assert("path_units"@.len() != "activating_units"@.len());
            assert("path_units"@.len() != "active_units"@.len());
            assert("path_units"@.len() != "automount_units"@.len());
            assert("path_units"@.len() != "device_units"@.len());
            assert("path_units"@.len() != "failed_units"@.len());
            assert("path_units"@.len() != "inactive_units"@.len());
            assert("path_units"@.len() != "jobs_queued"@.len());
            assert("path_units"@.len() != "loaded_units"@.len());
            assert("path_units"@.len() != "masked_units"@.len());
            assert("path_units"@.len() != "mount_units"@.len());
            assert("path_units"@.len() != "not_found_units"@.len());
            assert("path_units"@.len() != "scope_units"@.len());
            assert("path_units"@.len() != "service_units"@.len());
            assert("path_units"@.len() != "slice_units"@.len());
            assert("path_units"@.len() != "socket_units"@.len());
            assert("path_units"@.len() != "target_units"@.len());
            assert("path_units"@.len() != "timer_units"@.len());
            assert("path_units"@.len() != "timer_persistent_units"@.len());
            assert("path_units"@.len() != "timer_remain_after_elapse"@.len());
            assert("path_units"@.len() != "total_units"@.len());
        } else if i == 12 {
            assert(es[i].0 == dotted(base, "scope_units"@));
            lemma_dotted_injective(base, f, "scope_units"@);
            assert("scope_units"@.len() != "activating_units"@.len());
            assert("scope_units"@.len() != "active_units"@.len());
            assert("scope_units"@.len() != "automount_units"@.len());
            assert("scope_units"@.len() != "device_units"@.len());
            assert("scope_units"@.len() != "failed_units"@.len());
            assert("scope_units"@.len() != "inactive_units"@.len());
            assert("scope_units"@[0] != "jobs_queued"@[0]);
            assert("scope_units"@.len() != "loaded_units"@.len());
            assert("scope_units"@.len() != "masked_units"@.len());
            assert("scope_units"@[0] != "mount_units"@[0]);
            assert("scope_units"@.len() != "not_found_units"@.len());
            assert("scope_units"@.len() != "path_units"@.len());
            assert("scope_units"@.len() != "service_units"@.len());
            assert("scope_units"@[1] != "slice_units"@[1]);
            assert("scope_units"@.len() != "socket_units"@.len());
            assert("scope_units"@.len() != "target_units"@.len());
            assert("scope_units"@[0] != "timer_units"@[0]);
            assert("scope_units"@.len() != "timer_persistent_units"@.len());
            assert("scope_units"@.len() != "timer_remain_after_elapse"@.len());
            assert("scope_units"@[0] != "total_units"@[0]);
        } else if i == 13 {
            assert(es[i].0 == dotted(base, "service_units"@));
            lemma_dotted_injective(base, f, "service_units"@);
            assert("service_units"@.len() != "activating_units"@.len());
            assert("service_units"@.len() != "active_units"@.len());
            assert("service_units"@.len() != "automount_units"@.len());
            assert("service_units"@.len() != "device_units"@.len());
            assert("service_units"@.len() != "failed_units"@.len());
            assert("service_units"@.len() != "inactive_units"@.len());
            assert("service_units"@.len() != "jobs_queued"@.len());
            assert("service_units"@.len() != "loaded_units"@.len());
            assert("service_units"@.len() != "masked_units"@.len());
            assert("service_units"@.len() != "mount_units"@.len());
            assert("service_units"@.len() != "not_found_units"@.len());
            assert("service_units"@.len() != "path_units"@.len());
            assert("service_units"@.len() != "scope_units"@.len());
            assert("service_units"@.len() != "slice_units"@.len());
            assert("service_units"@.len() != "socket_units"@.len());
            assert("service_units"@.len() != "target_units"@.len());
            assert("service_units"@.len() != "timer_units"@.len());
            assert("service_units"@.len() != "timer_persistent_units"@.len());
            assert("service_units"@.len() != "timer_remain_after_elapse"@.len());
            assert("service_units"@.len() != "total_units"@.len());
        } else if i == 14 {
            assert(es[i].0 == dotted(base, "slice_units"@));
            lemma_dotted_injective(base, f, "slice_units"@);
            assert("slice_units"@.len() != "activating_units"@.len());
            assert("slice_units"@.len() != "active_units"@.len());
            assert("slice_units"@.len() != "automount_units"@.len());
            assert("slice_units"@.len() != "device_units"@.len());
            assert("slice_units"@.len() != "failed_units"@.len());
            assert("slice_units"@.len() != "inactive_units"@.len());
            assert("slice_units"@[0] != "jobs_queued"@[0]);
            assert("slice_units"@.len() != "loaded_units"@.len());
            assert("slice_units"@.len() != "masked_units"@.len());
            assert("slice_units"@[0] != "mount_units"@[0]);
            assert("slice_units"@.len() != "not_found_units"@.len());
            assert("slice_units"@.len() != "path_units"@.len());
            assert("slice_units"@[1] != "scope_units"@[1]);
            assert("slice_units"@.len() != "service_units"@.len());
            assert("slice_units"@.len() != "socket_units"@.len());
            assert("slice_units"@.len() != "target_units"@.len());
            assert("slice_units"@[0] != "timer_units"@[0]);
            assert("slice_units"@.len() != "timer_persistent_units"@.len());
            assert("slice_units"@.len() != "timer_remain_after_elapse"@.len());
            assert("slice_units"@[0] != "total_units"@[0]);
        } else if i == 15 {
            assert(es[i].0 == dotted(base, "socket_units"@));
            lemma_dotted_injective(base, f, "socket_units"@);
            assert("socket_units"@.len() != "activating_units"@.len());
            assert("socket_units"@[0] != "active_units"@[0]);
            assert("socket_units"@.len() != "automount_units"@.len());
            assert("socket_units"@[0] != "device_units"@[0]);
            assert("socket_units"@[0] != "failed_units"@[0]);
            assert("socket_units"@.len() != "inactive_units"@.len());
            assert("socket_units"@.len() != "jobs_queued"@.len());
            assert("socket_units"@[0] != "loaded_units"@[0]);
            assert("socket_units"@[0] != "masked_units"@[0]);
            assert("socket_units"@.len() != "mount_units"@.len());
            assert("socket_units"@.len() != "not_found_units"@.len());
            assert("socket_units"@.len() != "path_units"@.len());
            assert("socket_units"@.len() != "scope_units"@.len());
            assert("socket_units"@.len() != "service_units"@.len());
            assert("socket_units"@.len() != "slice_units"@.len());
            assert("socket_units"@[0] != "target_units"@[0]);
            assert("socket_units"@.len() != "timer_units"@.len());
            assert("socket_units"@.len() != "timer_persistent_units"@.len());
            assert("socket_units"@.len() != "timer_remain_after_elapse"@.len());
            assert("socket_units"@.len() != "total_units"@.len());
        } else if i == 16 {
            assert(es[i].0 == dotted(base, "target_units"@));
            lemma_dotted_injective(base, f, "target_units"@);
            assert("target_units"@.len() != "activating_units"@.len());
            assert("target_units"@[0] != "active_units"@[0]);
            assert("target_units"@.len() != "automount_units"@.len());
            assert("target_units"@[0] != "device_units"@[0]);
            assert("target_units"@[0] != "failed_units"@[0]);
            assert("target_units"@.len() != "inactive_units"@.len());
            assert("target_units"@.len() != "jobs_queued"@.len());
            assert("target_units"@[0] != "loaded_units"@[0]);
            assert("target_units"@[0] != "masked_units"@[0]);
            assert("target_units"@.len() != "mount_units"@.len());
            assert("target_units"@.len() != "not_found_units"@.len());
            assert("target_units"@.len() != "path_units"@.len());
            assert("target_units"@.len() != "scope_units"@.len());
            assert("target_units"@.len() != "service_units"@.len());
            assert("target_units"@.len() != "slice_units"@.len());
            assert("target_units"@[0] != "socket_units"@[0]);
            assert("target_units"@.len() != "timer_units"@.len());
            assert("target_units"@.len() != "timer_persistent_units"@.len());
            assert("target_units"@.len() != "timer_remain_after_elapse"@.len());
            assert("target_units"@.len() != "total_units"@.len());
        } else if i == 17 {
            assert(es[i].0 == dotted(base, "timer_units"@));
            lemma_dotted_injective(base, f, "timer_units"@);
            assert("timer_units"@.len() != "activating_units"@.len());
            assert("timer_units"@.len() != "active_units"@.len());
            assert("timer_units"@.len() != "automount_units"@.len());
            assert("timer_units"@.len() != "device_units"@.len());
            assert("timer_units"@.len() != "failed_units"@.len());
            assert("timer_units"@.len() != "inactive_units"@.len());
            assert("timer_units"@[0] != "jobs_queued"@[0]);
            assert("timer_units"@.len() != "loaded_units"@.len());
            assert("timer_units"@.len() != "masked_units"@.len());
            assert("timer_units"@[0] != "mount_units"@[0]);
            assert("timer_units"@.len() != "not_found_units"@.len());
            assert("timer_units"@.len() != "path_units"@.len());
            assert("timer_units"@[0] != "scope_units"@[0]);
            assert("timer_units"@.len() != "service_units"@.len());
            assert("timer_units"@[0] != "slice_units"@[0]);
            assert("timer_units"@.len() != "socket_units"@.len());
            assert("timer_units"@.len() != "target_units"@.len());
            assert("timer_units"@.len() != "timer_persistent_units"@.len());
            assert("timer_units"@.len() != "timer_remain_after_elapse"@.len());
            assert("timer_units"@[1] != "total_units"@[1]);
        } else if i == 18 {
            assert(es[i].0 == dotted(base, "timer_persistent_units"@));
            lemma_dotted_injective(base, f, "timer_persistent_units"@);
            assert("timer_persistent_units"@.len() != "activating_units"@.len());
            assert("timer_persistent_units"@.len() != "active_units"@.len());
            assert("timer_persistent_units"@.len() != "automount_units"@.len());
            assert("timer_persistent_units"@.len() != "device_units"@.len());
            assert("timer_persistent_units"@.len() != "failed_units"@.len());
            assert("timer_persistent_units"@.len() != "inactive_units"@.len());
            assert("timer_persistent_units"@.len() != "jobs_queued"@.len());
            assert("timer_persistent_units"@.len() != "loaded_units"@.len());
            assert("timer_persistent_units"@.len() != "masked_units"@.len());
            assert("timer_persistent_units"@.len() != "mount_units"@.len());
            assert("timer_persistent_units"@.len() != "not_found_units"@.len());
            assert("timer_persistent_units"@.len() != "path_units"@.len());
            assert("timer_persistent_units"@.len() != "scope_units"@.len());
            assert("timer_persistent_units"@.len() != "service_units"@.len());
            assert("timer_persistent_units"@.len() != "slice_units"@.len());
            assert("timer_persistent_units"@.len() != "socket_units"@.len());
            assert("timer_persistent_units"@.len() != "target_units"@.len());
            assert("timer_persistent_units"@.len() != "timer_units"@.len());
            assert("timer_persistent_units"@.len() != "timer_remain_after_elapse"@.len());
            assert("timer_persistent_units"@.len() != "total_units"@.len());
        } else if i == 19 {
            assert(es[i].0 == dotted(base, "timer_remain_after_elapse"@));
            lemma_dotted_injective(base, f, "timer_remain_after_elapse"@);
            assert("timer_remain_after_elapse"@.len() != "activating_units"@.len());
            assert("timer_remain_after_elapse"@.len() != "active_units"@.len());
            assert("timer_remain_after_elapse"@.len() != "automount_units"@.len());
            assert("timer_remain_after_elapse"@.len() != "device_units"@.len());
            assert("timer_remain_after_elapse"@.len() != "failed_units"@.len());
            assert("timer_remain_after_elapse"@.len() != "inactive_units"@.len());
            assert("timer_remain_after_elapse"@.len() != "jobs_queued"@.len());
            assert("timer_remain_after_elapse"@.len() != "loaded_units"@.len());
            assert("timer_remain_after_elapse"@.len() != "masked_units"@.len());
            assert("timer_remain_after_elapse"@.len() != "mount_units"@.len());
            assert("timer_remain_after_elapse"@.len() != "not_found_units"@.len());
            assert("timer_remain_after_elapse"@.len() != "path_units"@.len());
            assert("timer_remain_after_elapse"@.len() != "scope_units"@.len());
            assert("timer_remain_after_elapse"@.len() != "service_units"@.len());
            assert("timer_remain_after_elapse"@.len() != "slice_units"@.len());
            assert("timer_remain_after_elapse"@.len() != "socket_units"@.len());
            assert("timer_remain_after_elapse"@.len() != "target_units"@.len());
            assert("timer_remain_after_elapse"@.len() != "timer_units"@.len());
            assert("timer_remain_after_elapse"@.len() != "timer_persistent_units"@.len());
            assert("timer_remain_after_elapse"@.len() != "total_units"@.len());
        } else {
            assert(es[i].0 == dotted(base, "total_units"@));
            lemma_dotted_injective(base, f, "total_units"@);
            assert("total_units"@.len() != "activating_units"@.len());
            assert("total_units"@.len() != "active_units"@.len());
            assert("total_units"@.len() != "automount_units"@.len());
            assert("total_units"@.len() != "device_units"@.len());
            assert("total_units"@.len() != "failed_units"@.len());
            assert("total_units"@.len() != "inactive_units"@.len());
            assert("total_units"@[0] != "jobs_queued"@[0]);
            assert("total_units"@.len() != "loaded_units"@.len());
            assert("total_units"@.len() != "masked_units"@.len());
            assert("total_units"@[0] != "mount_units"@[0]);
            assert("total_units"@.len() != "not_found_units"@.len());
            assert("total_units"@.len() != "path_units"@.len());
            assert("total_units"@[0] != "scope_units"@[0]);
            assert("total_units"@.len() != "service_units"@.len());
            assert("total_units"@[0] != "slice_units"@[0]);
            assert("total_units"@.len() != "socket_units"@.len());
            assert("total_units"@.len() != "target_units"@.len());
            assert("total_units"@[1] != "timer_units"@[1]);
            assert("total_units"@.len() != "timer_persistent_units"@.len());
            assert("total_units"@.len() != "timer_remain_after_elapse"@.len());
        }
    }
    if unit_counter_named(c, f) is Some {
        if f == "loaded_units"@ {
            assert(es[7].0 == dotted(base, "loaded_units"@));
        } else if f == "timer_remain_after_elapse"@ {
            assert(es[19].0 == dotted(base, "timer_remain_after_elapse"@));
        } else if f == "target_units"@ {
            assert(es[16].0 == dotted(base, "target_units"@));
        } else if f == "slice_units"@ {
            assert(es[14].0 == dotted(base, "slice_units"@));
        } else if f == "path_units"@ {
            assert(es[11].0 == dotted(base, "path_units"@));
        } else if f == "service_units"@ {
            assert(es[13].0 == dotted(base, "service_units"@));
        } else if f == "total_units"@ {
            assert(es[20].0 == dotted(base, "total_units"@));
        } else if f == "jobs_queued"@ {
            assert(es[6].0 == dotted(base, "jobs_queued"@));
        } else if f == "timer_units"@ {
            assert(es[17].0 == dotted(base, "timer_units"@));
        } else if f == "timer_persistent_units"@ {
            assert(es[18].0 == dotted(base, "timer_persistent_units"@));
        } else if f == "socket_units"@ {
            assert(es[15].0 == dotted(base, "socket_units"@));
        } else if f == "masked_units"@ {
            assert(es[8].0 == dotted(base, "masked_units"@));
        } else if f == "activating_units"@ {
            assert(es[0].0 == dotted(base, "activating_units"@));
        } else if f == "mount_units"@ {
            assert(es[9].0 == dotted(base, "mount_units"@));
        } else if f == "inactive_units"@ {
            assert(es[5].0 == dotted(base, "inactive_units"@));
        } else if f == "device_units"@ {
            assert(es[3].0 == dotted(base, "device_units"@));
        } else if f == "automount_units"@ {
            assert(es[2].0 == dotted(base, "automount_units"@));
        } else if f == "active_units"@ {
            assert(es[1].0 == dotted(base, "active_units"@));
        } else if f == "scope_units"@ {
            assert(es[12].0 == dotted(base, "scope_units"@));
        } else if f == "failed_units"@ {
            assert(es[4].0 == dotted(base, "failed_units"@));
        } else {
            assert(es[10].0 == dotted(base, "not_found_units"@));
        }
    }
}

/// The value of the field of PID 1's stats that `f` names, if it names one.
pub open spec fn pid1_field_named(p: crate::pid1::Pid1Stats, f: Seq<char>) -> Option<FlatValue> {
    if f == "cpu_user_kernel"@ {
        Some(FlatValue::Unsigned(p.cpu_time_user))
    } else if f == "memory_usage_bytes"@ {
        Some(FlatValue::Unsigned(p.memory_usage_bytes))
    } else if f == "fd_count"@ {
        Some(FlatValue::Unsigned(p.fd_count))
    } else if f == "tasks"@ {
        Some(FlatValue::Unsigned(p.tasks))
    } else if f == "cpu_time_kernel"@ {
        Some(FlatValue::Unsigned(p.cpu_time_kernel))
    } else {
        None
    }
}

/// Each field of PID 1's stats is flattened under its own name: an entry keyed
/// `<base>.<f>` carries the value of the field `f` names, and each field
/// has an entry.
pub proof fn lemma_pid1_field_entries_by_name(base: Seq<char>, p: crate::pid1::Pid1Stats, f: Seq<char>)
    ensures
        forall|i: int| 0 <= i < pid1_entries(base, p).len() && #[trigger] pid1_entries(base, p)[i].0 == dotted(base, f) ==> pid1_field_named(p, f) == Some(pid1_entries(base, p)[i].1),
        pid1_field_named(p, f) is Some ==> exists|i: int| 0 <= i < pid1_entries(base, p).len() && #[trigger] pid1_entries(base, p)[i].0 == dotted(base, f),
{
    let es = pid1_entries(base, p);
    reveal_strlit("cpu_time_kernel");
    reveal_strlit("cpu_user_kernel");
    reveal_strlit("memory_usage_bytes");
    reveal_strlit("fd_count");
    reveal_strlit("tasks");
    assert forall|i: int| 0 <= i < es.len() && #[trigger] es[i].0 == dotted(base, f) implies pid1_field_named(p, f) == Some(es[i].1) by {
        if i == 0 {
            assert(es[i].0 == dotted(base, "cpu_time_kernel"@));
            lemma_dotted_injective(base, f, "cpu_time_kernel"@);
            assert("cpu_time_kernel"@[4] != "cpu_user_kernel"@[4]);
            assert("cpu_time_kernel"@.len() != "memory_usage_bytes"@.len());
            assert("cpu_time_kernel"@.len() != "fd_count"@.len());
            assert("cpu_time_kernel"@.len() != "tasks"@.len());
        } else if i == 1 {
            assert(es[i].0 == dotted(base, "cpu_user_kernel"@));
            lemma_dotted_injective(base, f, "cpu_user_kernel"@);
            assert("cpu_user_kernel"@[4] != "cpu_time_kernel"@[4]);
            assert("cpu_user_kernel"@.len() != "memory_usage_bytes"@.len());
            assert("cpu_user_kernel"@.len() != "fd_count"@.len());
            assert("cpu_user_kernel"@.len() != "tasks"@.len());
        } else if i == 2 {
            assert(es[i].0 == dotted(base, "memory_usage_bytes"@));
            lemma_dotted_injective(base, f, "memory_usage_bytes"@);
            assert("memory_usage_bytes"@.len() != "cpu_time_kernel"@.len());
            assert("memory_usage_bytes"@.len() != "cpu_user_kernel"@.len());
            assert("memory_usage_bytes"@.len() != "fd_count"@.len());
            assert("memory_usage_bytes"@.len() != "tasks"@.len());
        } else if i == 3 {
            assert(es[i].0 == dotted(base, "fd_count"@));
            lemma_dotted_injective(base, f, "fd_count"@);
            assert("fd_count"@.len() != "cpu_time_kernel"@.len());
            assert("fd_count"@.len() != "cpu_user_kernel"@.len());
            assert("fd_count"@.len() != "memory_usage_bytes"@.len());
            assert("fd_count"@.len() != "tasks"@.len());
        } else {
            assert(es[i].0 == dotted(base, "tasks"@));
            lemma_dotted_injective(base, f, "tasks"@);
            assert("tasks"@.len() != "cpu_time_kernel"@.len());
            assert("tasks"@.len() != "cpu_user_kernel"@.len());
            assert("tasks"@.len() != "memory_usage_bytes"@.len());
            assert("tasks"@.len() != "fd_count"@.len());
        }
    }
    if pid1_field_named(p, f) is Some {
        if f == "cpu_user_kernel"@ {
            assert(es[1].0 == dotted(base, "cpu_user_kernel"@));
        } else if f == "memory_usage_bytes"@ {
            assert(es[2].0 == dotted(base, "memory_usage_bytes"@));
        } else if f == "fd_count"@ {
            assert(es[3].0 == dotted(base, "fd_count"@));
        } else if f == "tasks"@ {
            assert(es[4].0 == dotted(base, "tasks"@));
        } else {
            assert(es[0].0 == dotted(base, "cpu_time_kernel"@));
        }
    }
}

/// The value of the field of a service's stats that `f` names, if it names one.
pub open spec fn service_field_named(st: crate::units::ServiceStats, f: Seq<char>) -> Option<FlatValue> {
    if f == "active_exit_timestamp"@ {
        Some(FlatValue::Unsigned(st.active_exit_timestamp))
    } else if f == "ioread_operations"@ {
        Some(FlatValue::Unsigned(st.ioread_operations))
    } else if f == "tasks_current"@ {
        Some(FlatValue::Unsigned(st.tasks_current))
    } else if f == "memory_current"@ {
        Some(FlatValue::Unsigned(st.memory_current))
    } else if f == "state_change_timestamp"@ {
        Some(FlatValue::Unsigned(st.state_change_timestamp))
    } else if f == "watchdog_usec"@ {
        Some(FlatValue::Unsigned(st.watchdog_usec))
    } else if f == "processes"@ {
        Some(FlatValue::Unsigned(st.processes as u64))
    } else if f == "restart_usec"@ {
        Some(FlatValue::Unsigned(st.restart_usec))
    } else if f == "memory_available"@ {
        Some(FlatValue::Unsigned(st.memory_available))
    } else if f == "ioread_bytes"@ {
        Some(FlatValue::Unsigned(st.ioread_bytes))
    } else if f == "cpuusage_nsec"@ {
        Some(FlatValue::Unsigned(st.cpuusage_nsec))
    } else if f == "nrestarts"@ {
        Some(FlatValue::Unsigned(st.nrestarts as u64))
    } else if f == "timeout_clean_usec"@ {
        Some(FlatValue::Unsigned(st.timeout_clean_usec))
    } else if f == "inactive_exit_timestamp"@ {
        Some(FlatValue::Unsigned(st.inactive_exit_timestamp))
    } else if f == "active_enter_timestamp"@ {
        Some(FlatValue::Unsigned(st.active_enter_timestamp))
    } else if f == "status_errno"@ {
        Some(FlatValue::Signed(st.status_errno as i64))
    } else {
        None
    }
}

/// Each field of a service's stats is flattened under its own name: an entry keyed
/// `<base>.<f>` carries the value of the field `f` names, and each field
/// has an entry.
pub proof fn lemma_service_field_entries_by_name(base: Seq<char>, st: crate::units::ServiceStats, f: Seq<char>)
    ensures
        forall|i: int| 0 <= i < service_entries(base, st).len() && #[trigger] service_entries(base, st)[i].0 == dotted(base, f) ==> service_field_named(st, f) == Some(service_entries(base, st)[i].1),
        service_field_named(st, f) is Some ==> exists|i: int| 0 <= i < service_entries(base, st).len() && #[trigger] service_entries(base, st)[i].0 == dotted(base, f),
{
    let es = service_entries(base, st);
    reveal_strlit("active_enter_timestamp");
    reveal_strlit("active_exit_timestamp");
    reveal_strlit("cpuusage_nsec");
    reveal_strlit("inactive_exit_timestamp");
    reveal_strlit("ioread_bytes");
    reveal_strlit("ioread_operations");
    reveal_strlit("memory_available");
    reveal_strlit("memory_current");
    reveal_strlit("nrestarts");
    reveal_strlit("processes");
    reveal_strlit("restart_usec");
    reveal_strlit("state_change_timestamp");
    reveal_strlit("status_errno");
    reveal_strlit("tasks_current");
    reveal_strlit("timeout_clean_usec");
    reveal_strlit("watchdog_usec");
    assert forall|i: int| 0 <= i < es.len() && #[trigger] es[i].0 == dotted(base, f) implies service_field_named(st, f) == Some(es[i].1) by {
        if i == 0 {
            assert(es[i].0 == dotted(base, "active_enter_timestamp"@));
            lemma_dotted_injective(base, f, "active_enter_timestamp"@);
            assert("active_enter_timestamp"@.len() != "active_exit_timestamp"@.len());
            assert("active_enter_timestamp"@.len() != "cpuusage_nsec"@.len());
            assert("active_enter_timestamp"@.len() != "inactive_exit_timestamp"@.len());
            assert("active_enter_timestamp"@.len() != "ioread_bytes"@.len());
            assert("active_enter_timestamp"@.len() != "ioread_operations"@.len());
            assert("active_enter_timestamp"@.len() != "memory_available"@.len());
            assert("active_enter_timestamp"@.len() != "memory_current"@.len());
            assert("active_enter_timestamp"@.len() != "nrestarts"@.len());
            assert("active_enter_timestamp"@.len() != "processes"@.len());
            assert("active_enter_timestamp"@.len() != "restart_usec"@.len());
            assert("active_enter_timestamp"@[0] != "state_change_timestamp"@[0]);
            assert("active_enter_timestamp"@.len() != "status_errno"@.len());
            assert("active_enter_timestamp"@.len() != "tasks_current"@.len());
            assert("active_enter_timestamp"@.len() != "timeout_clean_usec"@.len());
            assert("active_enter_timestamp"@.len() != "watchdog_usec"@.len());
        } else if i == 1 {
            assert(es[i].0 == dotted(base, "active_exit_timestamp"@));
            lemma_dotted_injective(base, f, "active_exit_timestamp"@);
            assert("active_exit_timestamp"@.len() != "active_enter_timestamp"@.len());
            assert("active_exit_timestamp"@.len() != "cpuusage_nsec"@.len());
            assert("active_exit_timestamp"@.len() != "inactive_exit_timestamp"@.len());
            assert("active_exit_timestamp"@.len() != "ioread_bytes"@.len());
            assert("active_exit_timestamp"@.len() != "ioread_operations"@.len());
            assert("active_exit_timestamp"@.len() != "memory_available"@.len());
            assert("active_exit_timestamp"@.len() != "memory_current"@.len());
            assert("active_exit_timestamp"@.len() != "nrestarts"@.len());
            assert("active_exit_timestamp"@.len() != "processes"@.len());
            assert("active_exit_timestamp"@.len() != "restart_usec"@.len());
            assert("active_exit_timestamp"@.len() != "state_change_timestamp"@.len());
            assert("active_exit_timestamp"@.len() != "status_errno"@.len());
            assert("active_exit_timestamp"@.len() != "tasks_current"@.len());
            assert("active_exit_timestamp"@.len() != "timeout_clean_usec"@.len());
            assert("active_exit_timestamp"@.len() != "watchdog_usec"@.len());
        } else if i == 2 {
            assert(es[i].0 == dotted(base, "cpuusage_nsec"@));
            lemma_dotted_injective(base, f, "cpuusage_nsec"@);
            assert("cpuusage_nsec"@.len() != "active_enter_timestamp"@.len());
            assert("cpuusage_nsec"@.len() != "active_exit_timestamp"@.len());
            assert("cpuusage_nsec"@.len() != "inactive_exit_timestamp"@.len());
            assert("cpuusage_nsec"@.len() != "ioread_bytes"@.len());
            assert("cpuusage_nsec"@.len() != "ioread_operations"@.len());
            assert("cpuusage_nsec"@.len() != "memory_available"@.len());
            assert("cpuusage_nsec"@.len() != "memory_current"@.len());
            assert("cpuusage_nsec"@.len() != "nrestarts"@.len());
            assert("cpuusage_nsec"@.len() != "processes"@.len());
            assert("cpuusage_nsec"@.len() != "restart_usec"@.len());
            assert("cpuusage_nsec"@.len() != "state_change_timestamp"@.len());
            assert("cpuusage_nsec"@.len() != "status_errno"@.len());
            assert("cpuusage_nsec"@[0] != "tasks_current"@[0]);
            assert("cpuusage_nsec"@.len() != "timeout_clean_usec"@.len());
            assert("cpuusage_nsec"@[0] != "watchdog_usec"@[0]);
        } else if i == 3 {
            assert(es[i].0 == dotted(base, "inactive_exit_timestamp"@));
            lemma_dotted_injective(base, f, "inactive_exit_timestamp"@);
            assert("inactive_exit_timestamp"@.len() != "active_enter_timestamp"@.len());
            assert("inactive_exit_timestamp"@.len() != "active_exit_timestamp"@.len());
            assert("inactive_exit_timestamp"@.len() != "cpuusage_nsec"@.len());
            assert("inactive_exit_timestamp"@.len() != "ioread_bytes"@.len());
            assert("inactive_exit_timestamp"@.len() != "ioread_operations"@.len());
            assert("inactive_exit_timestamp"@.len() != "memory_available"@.len());
            assert("inactive_exit_timestamp"@.len() != "memory_current"@.len());
            assert("inactive_exit_timestamp"@.len() != "nrestarts"@.len());
            assert("inactive_exit_timestamp"@.len() != "processes"@.len());
            assert("inactive_exit_timestamp"@.len() != "restart_usec"@.len());
            assert("inactive_exit_timestamp"@.len() != "state_change_timestamp"@.len());
            assert("inactive_exit_timestamp"@.len() != "status_errno"@.len());
            assert("inactive_exit_timestamp"@.len() != "tasks_current"@.len());
            assert("inactive_exit_timestamp"@.len() != "timeout_clean_usec"@.len());
            assert("inactive_exit_timestamp"@.len() != "watchdog_usec"@.len());
        } else if i == 4 {
            assert(es[i].0 == dotted(base, "ioread_bytes"@));
            lemma_dotted_injective(base, f, "ioread_bytes"@);
            assert("ioread_bytes"@.len() != "active_enter_timestamp"@.len());
            assert("ioread_bytes"@.len() != "active_exit_timestamp"@.len());
            assert("ioread_bytes"@.len() != "cpuusage_nsec"@.len());
            assert("ioread_bytes"@.len() != "inactive_exit_timestamp"@.len());
            assert("ioread_bytes"@.len() != "ioread_operations"@.len());
            assert("ioread_bytes"@.len() != "memory_available"@.len());
            assert("ioread_bytes"@.len() != "memory_current"@.len());
            assert("ioread_bytes"@.len() != "nrestarts"@.len());
            assert("ioread_bytes"@.len() != "processes"@.len());
            assert("ioread_bytes"@[0] != "restart_usec"@[0]);
            assert("ioread_bytes"@.len() != "state_change_timestamp"@.len());
            assert("ioread_bytes"@[0] != "status_errno"@[0]);
            assert("ioread_bytes"@.len() != "tasks_current"@.len());
            assert("ioread_bytes"@.len() != "timeout_clean_usec"@.len());
            assert("ioread_bytes"@.len() != "watchdog_usec"@.len());
        } else if i == 5 {
            assert(es[i].0 == dotted(base, "ioread_operations"@));
            lemma_dotted_injective(base, f, "ioread_operations"@);
            assert("ioread_operations"@.len() != "active_enter_timestamp"@.len());
            assert("ioread_operations"@.len() != "active_exit_timestamp"@.len());
            assert("ioread_operations"@.len() != "cpuusage_nsec"@.len());
            assert("ioread_operations"@.len() != "inactive_exit_timestamp"@.len());
            assert("ioread_operations"@.len() != "ioread_bytes"@.len());
            assert("ioread_operations"@.len() != "memory_available"@.len());
            assert("ioread_operations"@.len() != "memory_current"@.len());
            assert("ioread_operations"@.len() != "nrestarts"@.len());
            assert("ioread_operations"@.len() != "processes"@.len());
            assert("ioread_operations"@.len() != "restart_usec"@.len());
            assert("ioread_operations"@.len() != "state_change_timestamp"@.len());
            assert("ioread_operations"@.len() != "status_errno"@.len());
            assert("ioread_operations"@.len() != "tasks_current"@.len());
            assert("ioread_operations"@.len() != "timeout_clean_usec"@.len());
            assert("ioread_operations"@.len() != "watchdog_usec"@.len());
        } else if i == 6 {
            assert(es[i].0 == dotted(base, "memory_available"@));
            lemma_dotted_injective(base, f, "memory_available"@);
            assert("memory_available"@.len() != "active_enter_timestamp"@.len());
            assert("memory_available"@.len() != "active_exit_timestamp"@.len());
            assert("memory_available"@.len() != "cpuusage_nsec"@.len());
            assert("memory_available"@.len() != "inactive_exit_timestamp"@.len());
            assert("memory_available"@.len() != "ioread_bytes"@.len());
            assert("memory_available"@.len() != "ioread_operations"@.len());
            assert("memory_available"@.len() != "memory_current"@.len());
            assert("memory_available"@.len() != "nrestarts"@.len());
            assert("memory_available"@.len() != "processes"@.len());
            assert("memory_available"@.len() != "restart_usec"@.len());
            assert("memory_available"@.len() != "state_change_timestamp"@.len());
            assert("memory_available"@.len() != "status_errno"@.len());
            assert("memory_available"@.len() != "tasks_current"@.len());
            assert("memory_available"@.len() != "timeout_clean_usec"@.len());
            assert("memory_available"@.len() != "watchdog_usec"@.len());
        } else if i == 7 {
            assert(es[i].0 == dotted(base, "memory_current"@));
            lemma_dotted_injective(base, f, "memory_current"@);
            assert("memory_current"@.len() != "active_enter_timestamp"@.len());
            assert("memory_current"@.len() != "active_exit_timestamp"@.len());
            assert("memory_current"@.len() != "cpuusage_nsec"@.len());
            assert("memory_current"@.len() != "inactive_exit_timestamp"@.len());
            assert("memory_current"@.len() != "ioread_bytes"@.len());
            assert("memory_current"@.len() != "ioread_operations"@.len());
            assert("memory_current"@.len() != "memory_available"@.len());
            assert("memory_current"@.len() != "nrestarts"@.len());
            assert("memory_current"@.len() != "processes"@.len());
            assert("memory_current"@.len() != "restart_usec"@.len());
            assert("memory_current"@.len() != "state_change_timestamp"@.len());
            assert("memory_current"@.len() != "status_errno"@.len());
            assert("memory_current"@.len() != "tasks_current"@.len());
            assert("memory_current"@.len() != "timeout_clean_usec"@.len());
            assert("memory_current"@.len() != "watchdog_usec"@.len());
        } else if i == 8 {
            assert(es[i].0 == dotted(base, "nrestarts"@));
            lemma_dotted_injective(base, f, "nrestarts"@);
            assert("nrestarts"@.len() != "active_enter_timestamp"@.len());
            assert("nrestarts"@.len() != "active_exit_timestamp"@.len());
            assert("nrestarts"@.len() != "cpuusage_nsec"@.len());
            assert("nrestarts"@.len() != "inactive_exit_timestamp"@.len());
            assert("nrestarts"@.len() != "ioread_bytes"@.len());
            assert("nrestarts"@.len() != "ioread_operations"@.len());
            assert("nrestarts"@.len() != "memory_available"@.len());
            assert("nrestarts"@.len() != "memory_current"@.len());
            assert("nrestarts"@[0] != "processes"@[0]);
            assert("nrestarts"@.len() != "restart_usec"@.len());
            assert("nrestarts"@.len() != "state_change_timestamp"@.len());
            assert("nrestarts"@.len() != "status_errno"@.len());
            assert("nrestarts"@.len() != "tasks_current"@.len());
            assert("nrestarts"@.len() != "timeout_clean_usec"@.len());
            assert("nrestarts"@.len() != "watchdog_usec"@.len());
        } else if i == 9 {
            assert(es[i].0 == dotted(base, "processes"@));
            lemma_dotted_injective(base, f, "processes"@);
            assert("processes"@.len() != "active_enter_timestamp"@.len());
            assert("processes"@.len() != "active_exit_timestamp"@.len());
            assert("processes"@.len() != "cpuusage_nsec"@.len());
            assert("processes"@.len() != "inactive_exit_timestamp"@.len());
            assert("processes"@.len() != "ioread_bytes"@.len());
            assert("processes"@.len() != "ioread_operations"@.len());
            assert("processes"@.len() != "memory_available"@.len());
            assert("processes"@.len() != "memory_current"@.len());
            assert("processes"@[0] != "nrestarts"@[0]);
            assert("processes"@.len() != "restart_usec"@.len());
            assert("processes"@.len() != "state_change_timestamp"@.len());
            assert("processes"@.len() != "status_errno"@.len());
            assert("processes"@.len() != "tasks_current"@.len());
            assert("processes"@.len() != "timeout_clean_usec"@.len());
            assert("processes"@.len() != "watchdog_usec"@.len());
        } else if i == 10 {
            assert(es[i].0 == dotted(base, "restart_usec"@));
            lemma_dotted_injective(base, f, "restart_usec"@);
            assert("restart_usec"@.len() != "active_enter_timestamp"@.len());
            assert("restart_usec"@.len() != "active_exit_timestamp"@.len());
            assert("restart_usec"@.len() != "cpuusage_nsec"@.len());
            assert("restart_usec"@.len() != "inactive_exit_timestamp"@.len());
            assert("restart_usec"@[0] != "ioread_bytes"@[0]);
            assert("restart_usec"@.len() != "ioread_operations"@.len());
            assert("restart_usec"@.len() != "memory_available"@.len());
            assert("restart_usec"@.len() != "memory_current"@.len());
            assert("restart_usec"@.len() != "nrestarts"@.len());
            assert("restart_usec"@.len() != "processes"@.len());
            assert("restart_usec"@.len() != "state_change_timestamp"@.len());
            assert("restart_usec"@[0] != "status_errno"@[0]);
            assert("restart_usec"@.len() != "tasks_current"@.len());
            assert("restart_usec"@.len() != "timeout_clean_usec"@.len());
            assert("restart_usec"@.len() != "watchdog_usec"@.len());
        } else if i == 11 {
            assert(es[i].0 == dotted(base, "state_change_timestamp"@));
            lemma_dotted_injective(base, f, "state_change_timestamp"@);
            assert("state_change_timestamp"@[0] != "active_enter_timestamp"@[0]);
            assert("state_change_timestamp"@.len() != "active_exit_timestamp"@.len());
            assert("state_change_timestamp"@.len() != "cpuusage_nsec"@.len());
            assert("state_change_timestamp"@.len() != "inactive_exit_timestamp"@.len());
            assert("state_change_timestamp"@.len() != "ioread_bytes"@.len());
            assert("state_change_timestamp"@.len() != "ioread_operations"@.len());
            assert("state_change_timestamp"@.len() != "memory_available"@.len());
            assert("state_change_timestamp"@.len() != "memory_current"@.len());
            assert("state_change_timestamp"@.len() != "nrestarts"@.len());
            assert("state_change_timestamp"@.len() != "processes"@.len());
            assert("state_change_timestamp"@.len() != "restart_usec"@.len());
            assert("state_change_timestamp"@.len() != "status_errno"@.len());
            assert("state_change_timestamp"@.len() != "tasks_current"@.len());
            assert("state_change_timestamp"@.len() != "timeout_clean_usec"@.len());
            assert("state_change_timestamp"@.len() != "watchdog_usec"@.len());
        } else if i == 12 {
            assert(es[i].0 == dotted(base, "status_errno"@));
            lemma_dotted_injective(base, f, "status_errno"@);
            assert("status_errno"@.len() != "active_enter_timestamp"@.len());
            assert("status_errno"@.len() != "active_exit_timestamp"@.len());
            assert("status_errno"@.len() != "cpuusage_nsec"@.len());
            assert("status_errno"@.len() != "inactive_exit_timestamp"@.len());
            assert("status_errno"@[0] != "ioread_bytes"@[0]);
            assert("status_errno"@.len() != "ioread_operations"@.len());
            assert("status_errno"@.len() != "memory_available"@.len());
            assert("status_errno"@.len() != "memory_current"@.len());
            assert("status_errno"@.len() != "nrestarts"@.len());
            assert("status_errno"@.len() != "processes"@.len());
            assert("status_errno"@[0] != "restart_usec"@[0]);
            assert("status_errno"@.len() != "state_change_timestamp"@.len());
            assert("status_errno"@.len() != "tasks_current"@.len());
            assert("status_errno"@.len() != "timeout_clean_usec"@.len());
            assert("status_errno"@.len() != "watchdog_usec"@.len());
        } else if i == 13 {
            assert(es[i].0 == dotted(base, "tasks_current"@));
            lemma_dotted_injective(base, f, "tasks_current"@);
            assert("tasks_current"@.len() != "active_enter_timestamp"@.len());
            assert("tasks_current"@.len() != "active_exit_timestamp"@.len());
            assert("tasks_current"@[0] != "cpuusage_nsec"@[0]);
            assert("tasks_current"@.len() != "inactive_exit_timestamp"@.len());
            assert("tasks_current"@.len() != "ioread_bytes"@.len());
            assert("tasks_current"@.len() != "ioread_operations"@.len());
            assert("tasks_current"@.len() != "memory_available"@.len());
            assert("tasks_current"@.len() != "memory_current"@.len());
            assert("tasks_current"@.len() != "nrestarts"@.len());
            assert("tasks_current"@.len() != "processes"@.len());
            assert("tasks_current"@.len() != "restart_usec"@.len());
            assert("tasks_current"@.len() != "state_change_timestamp"@.len());
            assert("tasks_current"@.len() != "status_errno"@.len());
            assert("tasks_current"@.len() != "timeout_clean_usec"@.len());
            assert("tasks_current"@[0] != "watchdog_usec"@[0]);
        } else if i == 14 {
            assert(es[i].0 == dotted(base, "timeout_clean_usec"@));
            lemma_dotted_injective(base, f, "timeout_clean_usec"@);
            assert("timeout_clean_usec"@.len() != "active_enter_timestamp"@.len());
            assert("timeout_clean_usec"@.len() != "active_exit_timestamp"@.len());
            assert("timeout_clean_usec"@.len() != "cpuusage_nsec"@.len());
            assert("timeout_clean_usec"@.len() != "inactive_exit_timestamp"@.len());
            assert("timeout_clean_usec"@.len() != "ioread_bytes"@.len());
            assert("timeout_clean_usec"@.len() != "ioread_operations"@.len());
            assert("timeout_clean_usec"@.len() != "memory_available"@.len());
            assert("timeout_clean_usec"@.len() != "memory_current"@.len());
            assert("timeout_clean_usec"@.len() != "nrestarts"@.len());
            assert("timeout_clean_usec"@.len() != "processes"@.len());
            assert("timeout_clean_usec"@.len() != "restart_usec"@.len());
            assert("timeout_clean_usec"@.len() != "state_change_timestamp"@.len());
            assert("timeout_clean_usec"@.len() != "status_errno"@.len());
            assert("timeout_clean_usec"@.len() != "tasks_current"@.len());
            assert("timeout_clean_usec"@.len() != "watchdog_usec"@.len());
        } else {
            assert(es[i].0 == dotted(base, "watchdog_usec"@));
            lemma_dotted_injective(base, f, "watchdog_usec"@);
            assert("watchdog_usec"@.len() != "active_enter_timestamp"@.len());
            assert("watchdog_usec"@.len() != "active_exit_timestamp"@.len());
            assert("watchdog_usec"@[0] != "cpuusage_nsec"@[0]);
            assert("watchdog_usec"@.len() != "inactive_exit_timestamp"@.len());
            assert("watchdog_usec"@.len() != "ioread_bytes"@.len());
            assert("watchdog_usec"@.len() != "ioread_operations"@.len());
            assert("watchdog_usec"@.len() != "memory_available"@.len());
            assert("watchdog_usec"@.len() != "memory_current"@.len());
            assert("watchdog_usec"@.len() != "nrestarts"@.len());
            assert("watchdog_usec"@.len() != "processes"@.len());
            assert("watchdog_usec"@.len() != "restart_usec"@.len());
            assert("watchdog_usec"@.len() != "state_change_timestamp"@.len());
            assert("watchdog_usec"@.len() != "status_errno"@.len());
            assert("watchdog_usec"@[0] != "tasks_current"@[0]);
            assert("watchdog_usec"@.len() != "timeout_clean_usec"@.len());
        }
    }
    if service_field_named(st, f) is Some {
        if f == "active_exit_timestamp"@ {
            assert(es[1].0 == dotted(base, "active_exit_timestamp"@));
        } else if f == "ioread_operations"@ {
            assert(es[5].0 == dotted(base, "ioread_operations"@));
        } else if f == "tasks_current"@ {
            assert(es[13].0 == dotted(base, "tasks_current"@));
        } else if f == "memory_current"@ {
            assert(es[7].0 == dotted(base, "memory_current"@));
        } else if f == "state_change_timestamp"@ {
            assert(es[11].0 == dotted(base, "state_change_timestamp"@));
        } else if f == "watchdog_usec"@ {
            assert(es[15].0 == dotted(base, "watchdog_usec"@));
        } else if f == "processes"@ {
            assert(es[9].0 == dotted(base, "processes"@));
        } else if f == "restart_usec"@ {
            assert(es[10].0 == dotted(base, "restart_usec"@));
        } else if f == "memory_available"@ {
            assert(es[6].0 == dotted(base, "memory_available"@));
        } else if f == "ioread_bytes"@ {
            assert(es[4].0 == dotted(base, "ioread_bytes"@));
        } else if f == "cpuusage_nsec"@ {
            assert(es[2].0 == dotted(base, "cpuusage_nsec"@));
        } else if f == "nrestarts"@ {
            assert(es[8].0 == dotted(base, "nrestarts"@));
        } else if f == "timeout_clean_usec"@ {
            assert(es[14].0 == dotted(base, "timeout_clean_usec"@));
        } else if f == "inactive_exit_timestamp"@ {
            assert(es[3].0 == dotted(base, "inactive_exit_timestamp"@));
        } else if f == "active_enter_timestamp"@ {
            assert(es[0].0 == dotted(base, "active_enter_timestamp"@));
        } else {
            assert(es[12].0 == dotted(base, "status_errno"@));
        }
    }
}

/// The value of the field of a timer's stats that `f` names, if it names one.
pub open spec fn timer_field_named(st: crate::timer::TimerStats, f: Seq<char>) -> Option<FlatValue> {
    if f == "service_unit_last_state_change_usec_monotonic"@ {
        Some(FlatValue::Unsigned(st.service_unit_last_state_change_usec_monotonic))
    } else if f == "remain_after_elapse"@ {
        Some(FlatValue::Unsigned(if st.remain_after_elapse { 1u64 } else { 0u64 }))
    } else if f == "last_trigger_usec"@ {
        Some(FlatValue::Unsigned(st.last_trigger_usec))
    } else if f == "randomized_delay_usec"@ {
        Some(FlatValue::Unsigned(st.randomized_delay_usec))
    } else if f == "persistent"@ {
        Some(FlatValue::Unsigned(if st.persistent { 1u64 } else { 0u64 }))
    } else if f == "next_elapse_usec_monotonic"@ {
        Some(FlatValue::Unsigned(st.next_elapse_usec_monotonic))
    } else if f == "accuracy_usec"@ {
        Some(FlatValue::Unsigned(st.accuracy_usec))
    } else if f == "next_elapse_usec_realtime"@ {
        Some(FlatValue::Unsigned(st.next_elapse_usec_realtime))
    } else if f == "last_trigger_usec_monotonic"@ {
        Some(FlatValue::Unsigned(st.last_trigger_usec_monotonic))
    } else if f == "service_unit_last_state_change_usec"@ {
        Some(FlatValue::Unsigned(st.service_unit_last_state_change_usec))
    } else if f == "fixed_random_delay"@ {
        Some(FlatValue::Unsigned(if st.fixed_random_delay { 1u64 } else { 0u64 }))
    } else {
        None
    }
}

/// Each field of a timer's stats is flattened under its own name: an entry keyed
/// `<base>.<f>` carries the value of the field `f` names, and each field
/// has an entry.
pub proof fn lemma_timer_field_entries_by_name(base: Seq<char>, st: crate::timer::TimerStats, f: Seq<char>)
    ensures
        forall|i: int| 0 <= i < timer_entries(base, st).len() && #[trigger] timer_entries(base, st)[i].0 == dotted(base, f) ==> timer_field_named(st, f) == Some(timer_entries(base, st)[i].1),
        timer_field_named(st, f) is Some ==> exists|i: int| 0 <= i < timer_entries(base, st).len() && #[trigger] timer_entries(base, st)[i].0 == dotted(base, f),
{
    let es = timer_entries(base, st);
    reveal_strlit("accuracy_usec");
    reveal_strlit("fixed_random_delay");
    reveal_strlit("last_trigger_usec");
    reveal_strlit("last_trigger_usec_monotonic");
    reveal_strlit("next_elapse_usec_monotonic");
    reveal_strlit("next_elapse_usec_realtime");
    reveal_strlit("persistent");
    reveal_strlit("randomized_delay_usec");
    reveal_strlit("remain_after_elapse");
    reveal_strlit("service_unit_last_state_change_usec");
    reveal_strlit("service_unit_last_state_change_usec_monotonic");
    assert forall|i: int| 0 <= i < es.len() && #[trigger] es[i].0 == dotted(base, f) implies timer_field_named(st, f) == Some(es[i].1) by {
        if i == 0 {
            assert(es[i].0 == dotted(base, "accuracy_usec"@));
            lemma_dotted_injective(base, f, "accuracy_usec"@);
            assert("accuracy_usec"@.len() != "fixed_random_delay"@.len());
            assert("accuracy_usec"@.len() != "last_trigger_usec"@.len());
            assert("accuracy_usec"@.len() != "last_trigger_usec_monotonic"@.len());
            assert("accuracy_usec"@.len() != "next_elapse_usec_monotonic"@.len());
            assert("accuracy_usec"@.len() != "next_elapse_usec_realtime"@.len());
            assert("accuracy_usec"@.len() != "persistent"@.len());
            assert("accuracy_usec"@.len() != "randomized_delay_usec"@.len());
            assert("accuracy_usec"@.len() != "remain_after_elapse"@.len());
            assert("accuracy_usec"@.len() != "service_unit_last_state_change_usec"@.len());
            assert("accuracy_usec"@.len() != "service_unit_last_state_change_usec_monotonic"@.len());
        } else if i == 1 {
            assert(es[i].0 == dotted(base, "fixed_random_delay"@));
            lemma_dotted_injective(base, f, "fixed_random_delay"@);
            assert("fixed_random_delay"@.len() != "accuracy_usec"@.len());
            assert("fixed_random_delay"@.len() != "last_trigger_usec"@.len());
            assert("fixed_random_delay"@.len() != "last_trigger_usec_monotonic"@.len());
            assert("fixed_random_delay"@.len() != "next_elapse_usec_monotonic"@.len());
            assert("fixed_random_delay"@.len() != "next_elapse_usec_realtime"@.len());
            assert("fixed_random_delay"@.len() != "persistent"@.len());
            assert("fixed_random_delay"@.len() != "randomized_delay_usec"@.len());
            assert("fixed_random_delay"@.len() != "remain_after_elapse"@.len());
            assert("fixed_random_delay"@.len() != "service_unit_last_state_change_usec"@.len());
            assert("fixed_random_delay"@.len() != "service_unit_last_state_change_usec_monotonic"@.len());
        } else if i == 2 {
            assert(es[i].0 == dotted(base, "last_trigger_usec"@));
            lemma_dotted_injective(base, f, "last_trigger_usec"@);
            assert("last_trigger_usec"@.len() != "accuracy_usec"@.len());
            assert("last_trigger_usec"@.len() != "fixed_random_delay"@.len());
            assert("last_trigger_usec"@.len() != "last_trigger_usec_monotonic"@.len());
            assert("last_trigger_usec"@.len() != "next_elapse_usec_monotonic"@.len());
            assert("last_trigger_usec"@.len() != "next_elapse_usec_realtime"@.len());
            assert("last_trigger_usec"@.len() != "persistent"@.len());
            assert("last_trigger_usec"@.len() != "randomized_delay_usec"@.len());
            assert("last_trigger_usec"@.len() != "remain_after_elapse"@.len());
            assert("last_trigger_usec"@.len() != "service_unit_last_state_change_usec"@.len());
            assert("last_trigger_usec"@.len() != "service_unit_last_state_change_usec_monotonic"@.len());
        } else if i == 3 {
            assert(es[i].0 == dotted(base, "last_trigger_usec_monotonic"@));
            lemma_dotted_injective(base, f, "last_trigger_usec_monotonic"@);
            assert("last_trigger_usec_monotonic"@.len() != "accuracy_usec"@.len());
            assert("last_trigger_usec_monotonic"@.len() != "fixed_random_delay"@.len());
            assert("last_trigger_usec_monotonic"@.len() != "last_trigger_usec"@.len());
            assert("last_trigger_usec_monotonic"@.len() != "next_elapse_usec_monotonic"@.len());
            assert("last_trigger_usec_monotonic"@.len() != "next_elapse_usec_realtime"@.len());
            assert("last_trigger_usec_monotonic"@.len() != "persistent"@.len());
            assert("last_trigger_usec_monotonic"@.len() != "randomized_delay_usec"@.len());
            assert("last_trigger_usec_monotonic"@.len() != "remain_after_elapse"@.len());
            assert("last_trigger_usec_monotonic"@.len() != "service_unit_last_state_change_usec"@.len());
            assert("last_trigger_usec_monotonic"@.len() != "service_unit_last_state_change_usec_monotonic"@.len());
        } else if i == 4 {
            assert(es[i].0 == dotted(base, "next_elapse_usec_monotonic"@));
            lemma_dotted_injective(base, f, "next_elapse_usec_monotonic"@);
            assert("next_elapse_usec_monotonic"@.len() != "accuracy_usec"@.len());
            assert("next_elapse_usec_monotonic"@.len() != "fixed_random_delay"@.len());
            assert("next_elapse_usec_monotonic"@.len() != "last_trigger_usec"@.len());
            assert("next_elapse_usec_monotonic"@.len() != "last_trigger_usec_monotonic"@.len());
            assert("next_elapse_usec_monotonic"@.len() != "next_elapse_usec_realtime"@.len());
            assert("next_elapse_usec_monotonic"@.len() != "persistent"@.len());
            assert("next_elapse_usec_monotonic"@.len() != "randomized_delay_usec"@.len());
            assert("next_elapse_usec_monotonic"@.len() != "remain_after_elapse"@.len());
            assert("next_elapse_usec_monotonic"@.len() != "service_unit_last_state_change_usec"@.len());
            assert("next_elapse_usec_monotonic"@.len() != "service_unit_last_state_change_usec_monotonic"@.len());
        } else if i == 5 {
            assert(es[i].0 == dotted(base, "next_elapse_usec_realtime"@));
            lemma_dotted_injective(base, f, "next_elapse_usec_realtime"@);
            assert("next_elapse_usec_realtime"@.len() != "accuracy_usec"@.len());
            assert("next_elapse_usec_realtime"@.len() != "fixed_random_delay"@.len());
            assert("next_elapse_usec_realtime"@.len() != "last_trigger_usec"@.len());
            assert("next_elapse_usec_realtime"@.len() != "last_trigger_usec_monotonic"@.len());
            assert("next_elapse_usec_realtime"@.len() != "next_elapse_usec_monotonic"@.len());
            assert("next_elapse_usec_realtime"@.len() != "persistent"@.len());
            assert("next_elapse_usec_realtime"@.len() != "randomized_delay_usec"@.len());
            assert("next_elapse_usec_realtime"@.len() != "remain_after_elapse"@.len());
            assert("next_elapse_usec_realtime"@.len() != "service_unit_last_state_change_usec"@.len());
            assert("next_elapse_usec_realtime"@.len() != "service_unit_last_state_change_usec_monotonic"@.len());
        } else if i == 6 {
            assert(es[i].0 == dotted(base, "persistent"@));
            lemma_dotted_injective(base, f, "persistent"@);
            assert("persistent"@.len() != "accuracy_usec"@.len());
            assert("persistent"@.len() != "fixed_random_delay"@.len());
            assert("persistent"@.len() != "last_trigger_usec"@.len());
            assert("persistent"@.len() != "last_trigger_usec_monotonic"@.len());
            assert("persistent"@.len() != "next_elapse_usec_monotonic"@.len());
            assert("persistent"@.len() != "next_elapse_usec_realtime"@.len());
            assert("persistent"@.len() != "randomized_delay_usec"@.len());
            assert("persistent"@.len() != "remain_after_elapse"@.len());
            assert("persistent"@.len() != "service_unit_last_state_change_usec"@.len());
            assert("persistent"@.len() != "service_unit_last_state_change_usec_monotonic"@.len());
        } else if i == 7 {
            assert(es[i].0 == dotted(base, "randomized_delay_usec"@));
            lemma_dotted_injective(base, f, "randomized_delay_usec"@);
            assert("randomized_delay_usec"@.len() != "accuracy_usec"@.len());
            assert("randomized_delay_usec"@.len() != "fixed_random_delay"@.len());
            assert("randomized_delay_usec"@.len() != "last_trigger_usec"@.len());
            assert("randomized_delay_usec"@.len() != "last_trigger_usec_monotonic"@.len());
            assert("randomized_delay_usec"@.len() != "next_elapse_usec_monotonic"@.len());
            assert("randomized_delay_usec"@.len() != "next_elapse_usec_realtime"@.len());
            assert("randomized_delay_usec"@.len() != "persistent"@.len());
            assert("randomized_delay_usec"@.len() != "remain_after_elapse"@.len());
            assert("randomized_delay_usec"@.len() != "service_unit_last_state_change_usec"@.len());
            assert("randomized_delay_usec"@.len() != "service_unit_last_state_change_usec_monotonic"@.len());
        } else if i == 8 {
            assert(es[i].0 == dotted(base, "remain_after_elapse"@));
            lemma_dotted_injective(base, f, "remain_after_elapse"@);
            assert("remain_after_elapse"@.len() != "accuracy_usec"@.len());
            assert("remain_after_elapse"@.len() != "fixed_random_delay"@.len());
            assert("remain_after_elapse"@.len() != "last_trigger_usec"@.len());
            assert("remain_after_elapse"@.len() != "last_trigger_usec_monotonic"@.len());
            assert("remain_after_elapse"@.len() != "next_elapse_usec_monotonic"@.len());
            assert("remain_after_elapse"@.len() != "next_elapse_usec_realtime"@.len());
            assert("remain_after_elapse"@.len() != "persistent"@.len());
            assert("remain_after_elapse"@.len() != "randomized_delay_usec"@.len());
            assert("remain_after_elapse"@.len() != "service_unit_last_state_change_usec"@.len());
            assert("remain_after_elapse"@.len() != "service_unit_last_state_change_usec_monotonic"@.len());
        } else if i == 9 {
            assert(es[i].0 == dotted(base, "service_unit_last_state_change_usec"@));
            lemma_dotted_injective(base, f, "service_unit_last_state_change_usec"@);
            assert("service_unit_last_state_change_usec"@.len() != "accuracy_usec"@.len());
            assert("service_unit_last_state_change_usec"@.len() != "fixed_random_delay"@.len());
            assert("service_unit_last_state_change_usec"@.len() != "last_trigger_usec"@.len());
            assert("service_unit_last_state_change_usec"@.len() != "last_trigger_usec_monotonic"@.len());
            assert("service_unit_last_state_change_usec"@.len() != "next_elapse_usec_monotonic"@.len());
            assert("service_unit_last_state_change_usec"@.len() != "next_elapse_usec_realtime"@.len());
            assert("service_unit_last_state_change_usec"@.len() != "persistent"@.len());
            assert("service_unit_last_state_change_usec"@.len() != "randomized_delay_usec"@.len());
            assert("service_unit_last_state_change_usec"@.len() != "remain_after_elapse"@.len());
            assert("service_unit_last_state_change_usec"@.len() != "service_unit_last_state_change_usec_monotonic"@.len());
        } else {
            assert(es[i].0 == dotted(base, "service_unit_last_state_change_usec_monotonic"@));
            lemma_dotted_injective(base, f, "service_unit_last_state_change_usec_monotonic"@);
            assert("service_unit_last_state_change_usec_monotonic"@.len() != "accuracy_usec"@.len());
            assert("service_unit_last_state_change_usec_monotonic"@.len() != "fixed_random_delay"@.len());
            assert("service_unit_last_state_change_usec_monotonic"@.len() != "last_trigger_usec"@.len());
            assert("service_unit_last_state_change_usec_monotonic"@.len() != "last_trigger_usec_monotonic"@.len());
            assert("service_unit_last_state_change_usec_monotonic"@.len() != "next_elapse_usec_monotonic"@.len());
            assert("service_unit_last_state_change_usec_monotonic"@.len() != "next_elapse_usec_realtime"@.len());
            assert("service_unit_last_state_change_usec_monotonic"@.len() != "persistent"@.len());
            assert("service_unit_last_state_change_usec_monotonic"@.len() != "randomized_delay_usec"@.len());
            assert("service_unit_last_state_change_usec_monotonic"@.len() != "remain_after_elapse"@.len());
            assert("service_unit_last_state_change_usec_monotonic"@.len() != "service_unit_last_state_change_usec"@.len());
        }
    }
    if timer_field_named(st, f) is Some {
        if f == "service_unit_last_state_change_usec_monotonic"@ {
            assert(es[10].0 == dotted(base, "service_unit_last_state_change_usec_monotonic"@));
        } else if f == "remain_after_elapse"@ {
            assert(es[8].0 == dotted(base, "remain_after_elapse"@));
        } else if f == "last_trigger_usec"@ {
            assert(es[2].0 == dotted(base, "last_trigger_usec"@));
        } else if f == "randomized_delay_usec"@ {
            assert(es[7].0 == dotted(base, "randomized_delay_usec"@));
        } else if f == "persistent"@ {
            assert(es[6].0 == dotted(base, "persistent"@));
        } else if f == "next_elapse_usec_monotonic"@ {
            assert(es[4].0 == dotted(base, "next_elapse_usec_monotonic"@));
        } else if f == "accuracy_usec"@ {
            assert(es[0].0 == dotted(base, "accuracy_usec"@));
        } else if f == "next_elapse_usec_realtime"@ {
            assert(es[5].0 == dotted(base, "next_elapse_usec_realtime"@));
        } else if f == "last_trigger_usec_monotonic"@ {
            assert(es[3].0 == dotted(base, "last_trigger_usec_monotonic"@));
        } else if f == "service_unit_last_state_change_usec"@ {
            assert(es[9].0 == dotted(base, "service_unit_last_state_change_usec"@));
        } else {
            assert(es[1].0 == dotted(base, "fixed_random_delay"@));
        }
    }
}

/// The value of the field of a link's states that `f` names, if it names one.
pub open spec fn link_field_named(link: crate::networkd::InterfaceState, f: Seq<char>) -> Option<FlatValue> {
    if f == "address_state"@ {
        Some(FlatValue::Unsigned(crate::networkd::address_state_number(link.address_state) as u64))
    } else if f == "carrier_state"@ {
        Some(FlatValue::Unsigned(crate::networkd::carrier_state_number(link.carrier_state) as u64))
    } else if f == "admin_state"@ {
        Some(FlatValue::Unsigned(crate::networkd::admin_state_number(link.admin_state) as u64))
    } else if f == "required_for_online"@ {
        Some(FlatValue::Unsigned(crate::networkd::bool_state_number(link.required_for_online) as u64))
    } else if f == "ipv6_address_state"@ {
        Some(FlatValue::Unsigned(crate::networkd::address_state_number(link.ipv6_address_state) as u64))
    } else if f == "oper_state"@ {
        Some(FlatValue::Unsigned(crate::networkd::oper_state_number(link.oper_state) as u64))
    } else if f == "ipv4_address_state"@ {
        Some(FlatValue::Unsigned(crate::networkd::address_state_number(link.ipv4_address_state) as u64))
    } else {
        None
    }
}

/// Each field of a link's states is flattened under its own name: an entry keyed
/// `<base>.<f>` carries the value of the field `f` names, and each field
/// has an entry.
pub proof fn lemma_link_field_entries_by_name(base: Seq<char>, link: crate::networkd::InterfaceState, f: Seq<char>)
    ensures
        forall|i: int| 0 <= i < interface_entries(base, link).len() && #[trigger] interface_entries(base, link)[i].0 == dotted(base, f) ==> link_field_named(link, f) == Some(interface_entries(base, link)[i].1),
        link_field_named(link, f) is Some ==> exists|i: int| 0 <= i < interface_entries(base, link).len() && #[trigger] interface_entries(base, link)[i].0 == dotted(base, f),
{
    let es = interface_entries(base, link);
    reveal_strlit("address_state");
    reveal_strlit("admin_state");
    reveal_strlit("carrier_state");
    reveal_strlit("ipv4_address_state");
    reveal_strlit("ipv6_address_state");
    reveal_strlit("oper_state");
    reveal_strlit("required_for_online");
    assert forall|i: int| 0 <= i < es.len() && #[trigger] es[i].0 == dotted(base, f) implies link_field_named(link, f) == Some(es[i].1) by {
        if i == 0 {
            assert(es[i].0 == dotted(base, "address_state"@));
            lemma_dotted_injective(base, f, "address_state"@);
            assert("address_state"@.len() != "admin_state"@.len());
            assert("address_state"@[0] != "carrier_state"@[0]);
            assert("address_state"@.len() != "ipv4_address_state"@.len());
            assert("address_state"@.len() != "ipv6_address_state"@.len());
            assert("address_state"@.len() != "oper_state"@.len());
            assert("address_state"@.len() != "required_for_online"@.len());
        } else if i == 1 {
            assert(es[i].0 == dotted(base, "admin_state"@));
            lemma_dotted_injective(base, f, "admin_state"@);
            assert("admin_state"@.len() != "address_state"@.len());
            assert("admin_state"@.len() != "carrier_state"@.len());
            assert("admin_state"@.len() != "ipv4_address_state"@.len());
            assert("admin_state"@.len() != "ipv6_address_state"@.len());
            assert("admin_state"@.len() != "oper_state"@.len());
            assert("admin_state"@.len() != "required_for_online"@.len());
        } else if i == 2 {
            assert(es[i].0 == dotted(base, "carrier_state"@));
            lemma_dotted_injective(base, f, "carrier_state"@);
            assert("carrier_state"@[0] != "address_state"@[0]);
            assert("carrier_state"@.len() != "admin_state"@.len());
            assert("carrier_state"@.len() != "ipv4_address_state"@.len());
            assert("carrier_state"@.len() != "ipv6_address_state"@.len());
            assert("carrier_state"@.len() != "oper_state"@.len());
            assert("carrier_state"@.len() != "required_for_online"@.len());
        } else if i == 3 {
            assert(es[i].0 == dotted(base, "ipv4_address_state"@));
            lemma_dotted_injective(base, f, "ipv4_address_state"@);
            assert("ipv4_address_state"@.len() != "address_state"@.len());
            assert("ipv4_address_state"@.len() != "admin_state"@.len());
            assert("ipv4_address_state"@.len() != "carrier_state"@.len());
            assert("ipv4_address_state"@[3] != "ipv6_address_state"@[3]);
            assert("ipv4_address_state"@.len() != "oper_state"@.len());
            assert("ipv4_address_state"@.len() != "required_for_online"@.len());
        } else if i == 4 {
            assert(es[i].0 == dotted(base, "ipv6_address_state"@));
            lemma_dotted_injective(base, f, "ipv6_address_state"@);
            assert("ipv6_address_state"@.len() != "address_state"@.len());
            assert("ipv6_address_state"@.len() != "admin_state"@.len());
            assert("ipv6_address_state"@.len() != "carrier_state"@.len());
            assert("ipv6_address_state"@[3] != "ipv4_address_state"@[3]);
            assert("ipv6_address_state"@.len() != "oper_state"@.len());
            assert("ipv6_address_state"@.len() != "required_for_online"@.len());
        } else if i == 5 {
            assert(es[i].0 == dotted(base, "oper_state"@));
            lemma_dotted_injective(base, f, "oper_state"@);
            assert("oper_state"@.len() != "address_state"@.len());
            assert("oper_state"@.len() != "admin_state"@.len());
            assert("oper_state"@.len() != "carrier_state"@.len());
            assert("oper_state"@.len() != "ipv4_address_state"@.len());
            assert("oper_state"@.len() != "ipv6_address_state"@.len());
            assert("oper_state"@.len() != "required_for_online"@.len());
        } else {
            assert(es[i].0 == dotted(base, "required_for_online"@));
            lemma_dotted_injective(base, f, "required_for_online"@);
            assert("required_for_online"@.len() != "address_state"@.len());
            assert("required_for_online"@.len() != "admin_state"@.len());
            assert("required_for_online"@.len() != "carrier_state"@.len());
            assert("required_for_online"@.len() != "ipv4_address_state"@.len());
            assert("required_for_online"@.len() != "ipv6_address_state"@.len());
            assert("required_for_online"@.len() != "oper_state"@.len());
        }
    }
    if link_field_named(link, f) is Some {
        if f == "address_state"@ {
            assert(es[0].0 == dotted(base, "address_state"@));
        } else if f == "carrier_state"@ {
            assert(es[2].0 == dotted(base, "carrier_state"@));
        } else if f == "admin_state"@ {
            assert(es[1].0 == dotted(base, "admin_state"@));
        } else if f == "required_for_online"@ {
            assert(es[6].0 == dotted(base, "required_for_online"@));
        } else if f == "ipv6_address_state"@ {
            assert(es[4].0 == dotted(base, "ipv6_address_state"@));
        } else if f == "oper_state"@ {
            assert(es[5].0 == dotted(base, "oper_state"@));
        } else {
            assert(es[3].0 == dotted(base, "ipv4_address_state"@));
        }
    }
}

} // verus!
