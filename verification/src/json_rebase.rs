//! Flattening under a key prefix gives the entries of flattening without
//! one, in the same order and with the same values, each key with the
//! prefix and a dot put before it.
use vstd::prelude::*;

use crate::dbus_stats::{
    cgroup_counters, peer_counters, peer_name, peer_values, DBusBrokerCGroupAccounting,
    DBusBrokerPeerAccounting, DBusBrokerUserAccounting, DBusStats,
};
use crate::json::{
    cgroup_entries_flat, cgroup_part, count_entries, counter_entries, counter_entries_units, daemon_entries,
    dotted, interface_entries, interfaces_entries, machine_flat, machine_prefix, metric_key, networkd_flat,
    opt_entry, peer_entries_flat, peer_part, pid1_entries, pid1_flat, scope_entries, service_entries,
    service_map_entries, system_state_flat, timer_entries, timer_map_entries, unit_files_flat,
    unit_state_entries, unit_state_map_entries, usage_entry, user_entries_flat, user_part, verify_flat,
    FlatValue,
};
use crate::strmap::StrMap;

verus! {

/// The entries with `q` put before each key, the values unchanged.
pub open spec fn prefixed(es: Seq<(Seq<char>, FlatValue)>, q: Seq<char>) -> Seq<(Seq<char>, FlatValue)> {
    es.map_values(|e: (Seq<char>, FlatValue)| (q + e.0, e.1))
}

/// Putting `q` before a base puts it before every key dotted onto it.
pub broadcast proof fn lemma_dotted_rebase(q: Seq<char>, b: Seq<char>, f: Seq<char>)
    ensures
        #[trigger] dotted(q + b, f) == q + dotted(b, f),
{
    assert(dotted(q + b, f) =~= q + dotted(b, f));
}

/// Prefixing distributes over joined runs of entries.
pub broadcast proof fn lemma_prefixed_join(a: Seq<(Seq<char>, FlatValue)>, b: Seq<(Seq<char>, FlatValue)>, q: Seq<char>)
    ensures
        #[trigger] prefixed(a + b, q) == prefixed(a, q) + prefixed(b, q),
{
    assert(prefixed(a + b, q) =~= prefixed(a, q) + prefixed(b, q));
}

broadcast proof fn lemma_opt_entry_rebase(q: Seq<char>, b: Seq<char>, f: Seq<char>, v: Option<u32>)
    ensures
        #[trigger] opt_entry(q + b, f, v) == prefixed(opt_entry(b, f, v), q),
{
    broadcast use lemma_dotted_rebase;
    assert(opt_entry(q + b, f, v) =~= prefixed(opt_entry(b, f, v), q));
}

broadcast proof fn lemma_usage_entry_rebase(
    q: Seq<char>,
    b: Seq<char>,
    f: Seq<char>,
    p: Option<crate::dbus_stats::CurMaxPair>,
)
    ensures
        #[trigger] usage_entry(q + b, f, p) == prefixed(usage_entry(b, f, p), q),
{
    broadcast use lemma_dotted_rebase;
    assert(usage_entry(q + b, f, p) =~= prefixed(usage_entry(b, f, p), q));
}

proof fn lemma_pid1_rebase(q: Seq<char>, b: Seq<char>, p: crate::pid1::Pid1Stats)
    ensures
        pid1_entries(q + b, p) == prefixed(pid1_entries(b, p), q),
{
    broadcast use lemma_dotted_rebase;
    assert(pid1_entries(q + b, p) =~= prefixed(pid1_entries(b, p), q));
}


proof fn lemma_counter_rebase(q: Seq<char>, b: Seq<char>, c: crate::dbus_stats::Counters)
    ensures
        counter_entries(q + b, c) == prefixed(counter_entries(b, c), q),
{
    broadcast use lemma_prefixed_join;
    lemma_opt_entry_rebase(q, b, "name_objects"@, c.name_objects);
    lemma_opt_entry_rebase(q, b, "match_bytes"@, c.match_bytes);
    lemma_opt_entry_rebase(q, b, "matches"@, c.matches);
    lemma_opt_entry_rebase(q, b, "reply_objects"@, c.reply_objects);
    lemma_opt_entry_rebase(q, b, "incoming_bytes"@, c.incoming_bytes);
    lemma_opt_entry_rebase(q, b, "incoming_fds"@, c.incoming_fds);
    lemma_opt_entry_rebase(q, b, "outgoing_bytes"@, c.outgoing_bytes);
    lemma_opt_entry_rebase(q, b, "outgoing_fds"@, c.outgoing_fds);
    lemma_opt_entry_rebase(q, b, "activation_request_bytes"@, c.activation_request_bytes);
    lemma_opt_entry_rebase(q, b, "activation_request_fds"@, c.activation_request_fds);
}

proof fn lemma_daemon_rebase(q: Seq<char>, b: Seq<char>, s: DBusStats)
    ensures
        daemon_entries(q + b, s) == prefixed(daemon_entries(b, s), q),
{
    broadcast use lemma_prefixed_join, lemma_opt_entry_rebase;
}

proof fn lemma_peers_rebase(q: Seq<char>, b: Seq<char>, peers: Seq<DBusBrokerPeerAccounting>)
    ensures
        peer_entries_flat(q + b, peers) == prefixed(peer_entries_flat(b, peers), q),
    decreases peers.len(),
{
    broadcast use lemma_dotted_rebase, lemma_prefixed_join;
    if peers.len() == 0 {
        assert(prefixed(Seq::empty(), q) =~= Seq::<(Seq<char>, FlatValue)>::empty());
    } else {
        lemma_peers_rebase(q, b, peers.drop_last());
        lemma_counter_rebase(q, dotted(dotted(b, "peer"@), peer_name(peers.last())), peer_counters(peers.last()));
    }
}

proof fn lemma_cgroups_rebase(q: Seq<char>, b: Seq<char>, cgroups: Seq<DBusBrokerCGroupAccounting>)
    ensures
        cgroup_entries_flat(q + b, cgroups) == prefixed(cgroup_entries_flat(b, cgroups), q),
    decreases cgroups.len(),
{
    broadcast use lemma_dotted_rebase, lemma_prefixed_join;
    if cgroups.len() == 0 {
        assert(prefixed(Seq::empty(), q) =~= Seq::<(Seq<char>, FlatValue)>::empty());
    } else {
        lemma_cgroups_rebase(q, b, cgroups.drop_last());
        lemma_counter_rebase(q, dotted(dotted(b, "cgroup"@), cgroups.last().name@), cgroup_counters(cgroups.last()));
    }
}

proof fn lemma_users_rebase(q: Seq<char>, b: Seq<char>, users: Seq<DBusBrokerUserAccounting>)
    ensures
        user_entries_flat(q + b, users) == prefixed(user_entries_flat(b, users), q),
    decreases users.len(),
{
    broadcast use lemma_dotted_rebase, lemma_prefixed_join, lemma_usage_entry_rebase;
    if users.len() == 0 {
        assert(prefixed(Seq::empty(), q) =~= Seq::<(Seq<char>, FlatValue)>::empty());
    } else {
        lemma_users_rebase(q, b, users.drop_last());
    }
}

proof fn lemma_service_map_rebase(q: Seq<char>, b: Seq<char>, items: Seq<(Seq<char>, crate::units::ServiceStats)>)
    ensures
        service_map_entries(q + b, items) == prefixed(service_map_entries(b, items), q),
    decreases items.len(),
{
    broadcast use lemma_dotted_rebase, lemma_prefixed_join;
    if items.len() == 0 {
        assert(prefixed(Seq::empty(), q) =~= Seq::<(Seq<char>, FlatValue)>::empty());
    } else {
        lemma_service_map_rebase(q, b, items.drop_last());
        let d = dotted(b, items.last().0);
        assert(service_entries(q + d, items.last().1) =~= prefixed(service_entries(d, items.last().1), q));
    }
}

proof fn lemma_timer_map_rebase(q: Seq<char>, b: Seq<char>, items: Seq<(Seq<char>, crate::timer::TimerStats)>)
    ensures
        timer_map_entries(q + b, items) == prefixed(timer_map_entries(b, items), q),
    decreases items.len(),
{
    broadcast use lemma_dotted_rebase, lemma_prefixed_join;
    if items.len() == 0 {
        assert(prefixed(Seq::empty(), q) =~= Seq::<(Seq<char>, FlatValue)>::empty());
    } else {
        lemma_timer_map_rebase(q, b, items.drop_last());
        let d = dotted(b, items.last().0);
        assert(timer_entries(q + d, items.last().1) =~= prefixed(timer_entries(d, items.last().1), q));
    }
}

proof fn lemma_unit_state_map_rebase(q: Seq<char>, b: Seq<char>, items: Seq<(Seq<char>, crate::units::UnitStates)>)
    ensures
        unit_state_map_entries(q + b, items) == prefixed(unit_state_map_entries(b, items), q),
    decreases items.len(),
{
    broadcast use lemma_dotted_rebase, lemma_prefixed_join;
    if items.len() == 0 {
        assert(prefixed(Seq::empty(), q) =~= Seq::<(Seq<char>, FlatValue)>::empty());
    } else {
        lemma_unit_state_map_rebase(q, b, items.drop_last());
        let d = dotted(b, items.last().0);
        assert(unit_state_entries(q + d, items.last().1) =~= prefixed(unit_state_entries(d, items.last().1), q));
    }
}

proof fn lemma_interfaces_rebase(q: Seq<char>, b: Seq<char>, ifaces: Seq<crate::networkd::InterfaceState>)
    ensures
        interfaces_entries(q + b, ifaces) == prefixed(interfaces_entries(b, ifaces), q),
    decreases ifaces.len(),
{
    broadcast use lemma_dotted_rebase, lemma_prefixed_join;
    if ifaces.len() == 0 {
        assert(prefixed(Seq::empty(), q) =~= Seq::<(Seq<char>, FlatValue)>::empty());
    } else {
        lemma_interfaces_rebase(q, b, ifaces.drop_last());
        let d = dotted(b, ifaces.last().name@);
        assert(interface_entries(q + d, ifaces.last()) =~= prefixed(interface_entries(d, ifaces.last()), q));
    }
}

proof fn lemma_counts_rebase(q: Seq<char>, b: Seq<char>, suffix: Seq<char>, items: Seq<(Seq<char>, u64)>)
    ensures
        count_entries(q + b, suffix, items) == prefixed(count_entries(b, suffix, items), q),
    decreases items.len(),
{
    broadcast use lemma_dotted_rebase;
    if items.len() == 0 {
        assert(prefixed(Seq::empty(), q) =~= Seq::<(Seq<char>, FlatValue)>::empty());
    } else {
        lemma_counts_rebase(q, b, suffix, items.drop_last());
        let rest = count_entries(b, suffix, items.drop_last());
        let e = (dotted(b, items.last().0 + suffix), FlatValue::Unsigned(items.last().1));
        assert(prefixed(rest.push(e), q) =~= prefixed(rest, q).push((q + e.0, e.1)));
    }
}

proof fn lemma_scope_rebase(q: Seq<char>, b: Seq<char>, scope: crate::units::UnitFilesScope)
    ensures
        scope_entries(q + b, scope) == prefixed(scope_entries(b, scope), q),
{
    broadcast use lemma_dotted_rebase, lemma_prefixed_join;
    lemma_counts_rebase(q, dotted(b, "generated"@), "_units"@, scope.generated.items());
    lemma_counts_rebase(q, dotted(b, "transient"@), "_units"@, scope.transient.items());
}


/// Every section key under base `pb` is `q` put before the key under `b`.
pub open spec fn bases_rebased(pb: Seq<char>, b: Seq<char>, q: Seq<char>) -> bool {
    forall|n: Seq<char>| #[trigger] metric_key(pb, n) == q + metric_key(b, n)
}

proof fn lemma_machine_flat_rebase(pb: Seq<char>, b: Seq<char>, q: Seq<char>, s: crate::MachineStats)
    requires
        bases_rebased(pb, b, q),
    ensures
        machine_flat(pb, s) == prefixed(machine_flat(b, s), q),
        unit_state_map_entries(metric_key(pb, "unit_states"@), s.units.unit_states.items()) == prefixed(
            unit_state_map_entries(metric_key(b, "unit_states"@), s.units.unit_states.items()),
            q,
        ),
{
    broadcast use lemma_dotted_rebase, lemma_prefixed_join;
    let kn = metric_key(b, "networkd"@);
    let ku = metric_key(b, "units"@);
    let kf = metric_key(b, "unit_files"@);
    let kp = metric_key(b, "pid1"@);
    let ks = metric_key(b, "system-state"@);
    let kv = metric_key(b, "services"@);
    let kt = metric_key(b, "timers"@);
    let kx = metric_key(b, "verify.failing"@);
    let kst = metric_key(b, "unit_states"@);
    assert(metric_key(pb, "networkd"@) == q + kn);
    assert(metric_key(pb, "units"@) == q + ku);
    assert(metric_key(pb, "unit_files"@) == q + kf);
    assert(metric_key(pb, "pid1"@) == q + kp);
    assert(metric_key(pb, "system-state"@) == q + ks);
    assert(metric_key(pb, "services"@) == q + kv);
    assert(metric_key(pb, "timers"@) == q + kt);
    assert(metric_key(pb, "verify.failing"@) == q + kx);
    assert(metric_key(pb, "unit_states"@) == q + kst);
    let n = s.networkd;
    lemma_interfaces_rebase(q, kn, n.interfaces_state@);
    assert(networkd_flat(pb, n) =~= prefixed(networkd_flat(b, n), q));
    let c = crate::units::counters_of(s.units);
    assert(counter_entries_units(q + ku, c) =~= prefixed(counter_entries_units(ku, c), q));
    lemma_scope_rebase(q, dotted(kf, "root"@), s.units.unit_files.root);
    lemma_scope_rebase(q, dotted(kf, "user"@), s.units.unit_files.user);
    assert(unit_files_flat(pb, s.units.unit_files) == prefixed(unit_files_flat(b, s.units.unit_files), q));
    match s.pid1 {
        Some(x) => {
            lemma_pid1_rebase(q, kp, x);
        },
        None => {
            assert(prefixed(Seq::empty(), q) =~= Seq::<(Seq<char>, FlatValue)>::empty());
        },
    }
    assert(pid1_flat(pb, s.pid1) == prefixed(pid1_flat(b, s.pid1), q));
    assert(system_state_flat(pb, s.system_state) =~= prefixed(system_state_flat(b, s.system_state), q));
    lemma_service_map_rebase(q, kv, s.units.service_stats.items());
    lemma_timer_map_rebase(q, kt, s.units.timer_stats.items());
    match s.verify_stats {
        Some(v) => {
            lemma_counts_rebase(q, kx, Seq::empty(), v.by_type.items());
            let head = seq![(dotted(kx, "total"@), FlatValue::Unsigned(v.total))];
            assert(seq![(dotted(q + kx, "total"@), FlatValue::Unsigned(v.total))] =~= prefixed(head, q));
        },
        None => {
            assert(prefixed(Seq::empty(), q) =~= Seq::<(Seq<char>, FlatValue)>::empty());
        },
    }
    assert(verify_flat(pb, s.verify_stats) == prefixed(verify_flat(b, s.verify_stats), q));
    lemma_unit_state_map_rebase(q, kst, s.units.unit_states.items());
}

/// Flattening the stats under a non-empty key prefix `p` gives the entries
/// of flattening them under no prefix, in the same order and with the same
/// values, each key with `p.` put before it.
pub proof fn lemma_flat_under_prefix(p: Seq<char>, s: crate::MachineStats)
    requires
        p.len() > 0,
    ensures
        machine_flat(p, s) == prefixed(machine_flat(Seq::<char>::empty(), s), p + "."@),
        unit_state_map_entries(metric_key(p, "unit_states"@), s.units.unit_states.items()) == prefixed(
            unit_state_map_entries(metric_key(Seq::<char>::empty(), "unit_states"@), s.units.unit_states.items()),
            p + "."@,
        ),
{
    let q = p + "."@;
    assert forall|n: Seq<char>| #[trigger] metric_key(p, n) == q + metric_key(Seq::<char>::empty(), n) by {
        assert(metric_key(p, n) =~= q + n);
    }
    lemma_machine_flat_rebase(p, Seq::<char>::empty(), q, s);
}

/// A container's stats flattened under a non-empty key prefix `p` are its
/// stats flattened under no prefix, each key with `p.` put before it.
pub proof fn lemma_machine_under_prefix(p: Seq<char>, machine: Seq<char>, s: crate::MachineStats)
    requires
        p.len() > 0,
    ensures
        machine_flat(machine_prefix(p, machine), s) == prefixed(
            machine_flat(machine_prefix(Seq::<char>::empty(), machine), s),
            p + "."@,
        ),
{
    let q = p + "."@;
    let b = machine_prefix(Seq::<char>::empty(), machine);
    let pb = machine_prefix(p, machine);
    assert(pb =~= q + b && b.len() > 0) by {
        reveal_strlit(".machines.");
        reveal_strlit(".");
        reveal_strlit("machines.");
    }
    assert forall|n: Seq<char>| #[trigger] metric_key(pb, n) == q + metric_key(b, n) by {
        assert(metric_key(pb, n) =~= q + metric_key(b, n));
    }
    lemma_machine_flat_rebase(pb, b, q, s);
}

/// D-Bus stats flattened under a non-empty key prefix `p` are the entries
/// flattened under no prefix, each key with `p.` put before it, whichever
/// cgroup accounting is flattened.
pub proof fn lemma_dbus_under_prefix(p: Seq<char>, s: DBusStats, cg: Option<StrMap<DBusBrokerCGroupAccounting>>)
    requires
        p.len() > 0,
    ensures
        ({
            let pb = metric_key(p, "dbus"@);
            let b = metric_key(Seq::<char>::empty(), "dbus"@);
            daemon_entries(pb, s) + peer_part(pb, s) + cgroup_part(pb, cg) + user_part(pb, s) == prefixed(
                daemon_entries(b, s) + peer_part(b, s) + cgroup_part(b, cg) + user_part(b, s),
                p + "."@,
            )
        }),
{
    broadcast use lemma_prefixed_join;
    let q = p + "."@;
    let b = metric_key(Seq::<char>::empty(), "dbus"@);
    let pb = metric_key(p, "dbus"@);
    assert(pb =~= q + b);
    assert(prefixed(Seq::empty(), q) =~= Seq::<(Seq<char>, FlatValue)>::empty());
    lemma_daemon_rebase(q, b, s);
    match s.dbus_broker_peer_accounting {
        Some(pa) => {
            lemma_peers_rebase(q, b, peer_values(pa));
        },
        None => {},
    }
    match cg {
        Some(m) => {
            lemma_cgroups_rebase(q, b, m.items().map_values(|e: (Seq<char>, DBusBrokerCGroupAccounting)| e.1));
        },
        None => {},
    }
    match s.dbus_broker_user_accounting {
        Some(u) => {
            lemma_users_rebase(q, b, u@);
        },
        None => {},
    }
    assert(peer_part(pb, s) == prefixed(peer_part(b, s), q));
    assert(cgroup_part(pb, cg) == prefixed(cgroup_part(b, cg), q));
    assert(user_part(pb, s) == prefixed(user_part(b, s), q));
}

} // verus!
