//! The accounting replies of dbus-broker's `GetStats` (`PeerAccounting` and
//! `UserAccounting`), as plain D-Bus values, and how they are read into
//! per-peer and per-user accounting.
use vstd::prelude::*;

use crate::config::Config;
use crate::dbus_stats::{CurMaxPair, DBusBrokerPeerAccounting, DBusBrokerUserAccounting};
use crate::strmap::StrMap;
use crate::text::{dec_string, str_eq};

verus! {

/// A D-Bus value of the accounting replies.
#[derive(Debug)]
pub enum BusValue {
    U32(u32),
    Str(String),
    /// A variant: a value boxed with its type.
    Variant(Box<BusValue>),
    Array(Vec<BusValue>),
    Structure(Vec<BusValue>),
    /// Dictionary entries, key and value.
    Dict(Vec<(BusValue, BusValue)>),
    /// A value of any other type.
    Other,
}

/// A value with its variant wrappers taken off.
pub open spec fn flattened(v: BusValue) -> BusValue
    decreases v,
{
    match v {
        BusValue::Variant(inner) => flattened(*inner),
        _ => v,
    }
}

fn flatten(v: &BusValue) -> (r: &BusValue)
    ensures
        *r == flattened(*v),
    decreases v,
{
    match v {
        BusValue::Variant(inner) => flatten(inner),
        _ => v,
    }
}

/// Whether a dictionary key is the string `key`.
pub open spec fn is_key(k: BusValue, key: Seq<char>) -> bool {
    match k {
        BusValue::Str(s) => s@ == key,
        _ => false,
    }
}

/// The value of the first entry whose key is the string `key`.
pub open spec fn dict_get(d: Seq<(BusValue, BusValue)>, key: Seq<char>) -> Option<BusValue>
    decreases d.len(),
{
    if d.len() == 0 {
        None
    } else if is_key(d[0].0, key) {
        Some(d[0].1)
    } else {
        dict_get(d.drop_first(), key)
    }
}

/// The entry's value as a `u32`, variants taken off.
pub open spec fn dict_u32(d: Seq<(BusValue, BusValue)>, key: Seq<char>) -> Option<u32> {
    match dict_get(d, key) {
        Some(v) => match flattened(v) {
            BusValue::U32(x) => Some(x),
            _ => None,
        },
        None => None,
    }
}

/// The `u32` items of an array, in order; other items are skipped.
pub open spec fn u32_items(items: Seq<BusValue>) -> Seq<u32>
    decreases items.len(),
{
    if items.len() == 0 {
        Seq::empty()
    } else {
        let rest = u32_items(items.drop_last());
        match items.last() {
            BusValue::U32(x) => rest.push(x),
            _ => rest,
        }
    }
}

/// The entry's value as an array of `u32`, variants taken off.
pub open spec fn dict_u32_vec(d: Seq<(BusValue, BusValue)>, key: Seq<char>) -> Option<Seq<u32>> {
    match dict_get(d, key) {
        Some(v) => match flattened(v) {
            BusValue::Array(items) => Some(u32_items(items@)),
            _ => None,
        },
        None => None,
    }
}

fn dict_lookup<'a>(d: &'a Vec<(BusValue, BusValue)>, key: &str) -> (r: Option<&'a BusValue>)
    ensures
        match r {
            Some(v) => dict_get(d@, key@) == Some(*v),
            None => dict_get(d@, key@) is None,
        },
{
    let mut i: usize = 0;
    proof {
        assert(d@.skip(0) =~= d@);
    }
    while i < d.len()
        invariant
            i <= d@.len(),
            dict_get(d@, key@) == dict_get(d@.skip(i as int), key@),
        decreases d.len() - i,
    {
        let ghost rest = d@.skip(i as int);
        proof {
            assert(rest[0] == d@[i as int]);
            assert(rest.drop_first() =~= d@.skip(i + 1));
        }
        let found = match &d[i].0 {
            BusValue::Str(s) => str_eq(s.as_str(), key),
            _ => false,
        };
        if found {
            return Some(&d[i].1);
        }
        i = i + 1;
    }
    None
}

/// The `u32` under `key` of a dictionary.
pub fn get_u32(dict: &Vec<(BusValue, BusValue)>, key: &str) -> (r: Option<u32>)
    ensures
        r == dict_u32(dict@, key@),
{
    match dict_lookup(dict, key) {
        Some(v) => match flatten(v) {
            BusValue::U32(x) => Some(*x),
            _ => None,
        },
        None => None,
    }
}

/// The `u32` array under `key` of a dictionary, its other items skipped.
pub fn get_u32_vec(dict: &Vec<(BusValue, BusValue)>, key: &str) -> (r: Option<Vec<u32>>)
    ensures
        match r {
            Some(v) => dict_u32_vec(dict@, key@) == Some(v@),
            None => dict_u32_vec(dict@, key@) is None,
        },
{
    match dict_lookup(dict, key) {
        Some(v) => match flatten(v) {
            BusValue::Array(items) => {
                let mut out: Vec<u32> = Vec::new();
                let mut i: usize = 0;
                while i < items.len()
                    invariant
                        i <= items@.len(),
                        out@ == u32_items(items@.take(i as int)),
                    decreases items.len() - i,
                {
                    proof {
                        assert(items@.take(i + 1).drop_last() =~= items@.take(i as int));
                        assert(items@.take(i + 1).last() == items@[i as int]);
                    }
                    match &items[i] {
                        BusValue::U32(x) => out.push(*x),
                        _ => {},
                    }
                    i = i + 1;
                }
                proof {
                    assert(items@.take(i as int) =~= items@);
                }
                Some(out)
            },
            _ => None,
        },
        None => None,
    }
}

/// A peer entry: a structure whose first fields are the unique name, the
/// credentials dictionary and the statistics dictionary.
pub open spec fn peer_shape(v: BusValue) -> bool {
    match v {
        BusValue::Structure(f) => f.len() >= 3 && f@[0] is Str && f@[1] is Dict && f@[2] is Dict,
        _ => false,
    }
}

/// `p` is the peer read from the entry `v`, whose shape is right: its
/// unique name, the well-known name it owns (`well_known` maps unique
/// names to well-known names), its credentials and its counters.
pub open spec fn peer_parsed(p: DBusBrokerPeerAccounting, v: BusValue, well_known: Map<Seq<char>, String>) -> bool {
    match v {
        BusValue::Structure(f) => match (f@[0], f@[1], f@[2]) {
            (BusValue::Str(id), BusValue::Dict(cred), BusValue::Dict(stats)) => {
                &&& p.id@ == id@
                &&& match p.well_known_name {
                    Some(n) => well_known.dom().contains(id@) && n@ == well_known[id@]@,
                    None => !well_known.dom().contains(id@),
                }
                &&& p.unix_user_id == dict_u32(cred@, "UnixUserID"@)
                &&& p.process_id == dict_u32(cred@, "ProcessID"@)
                &&& match p.unix_group_ids {
                    Some(g) => dict_u32_vec(cred@, "UnixGroupIDs"@) == Some(g@),
                    None => dict_u32_vec(cred@, "UnixGroupIDs"@) is None,
                }
                &&& p.name_objects == dict_u32(stats@, "NameObjects"@)
                &&& p.match_bytes == dict_u32(stats@, "MatchBytes"@)
                &&& p.matches == dict_u32(stats@, "Matches"@)
                &&& p.reply_objects == dict_u32(stats@, "ReplyObjects"@)
                &&& p.incoming_bytes == dict_u32(stats@, "IncomingBytes"@)
                &&& p.incoming_fds == dict_u32(stats@, "IncomingFds"@)
                &&& p.outgoing_bytes == dict_u32(stats@, "OutgoingBytes"@)
                &&& p.outgoing_fds == dict_u32(stats@, "OutgoingFds"@)
                &&& p.activation_request_bytes == dict_u32(stats@, "ActivationRequestBytes"@)
                &&& p.activation_request_fds == dict_u32(stats@, "ActivationRequestFds"@)
            },
            _ => false,
        },
        _ => false,
    }
}

/// Read a peer entry of `PeerAccounting`; `None` when its shape is wrong.
pub fn parse_peer_struct(peer_value: &BusValue, well_known_to_peer_names: &StrMap<String>) -> (r: Option<
    DBusBrokerPeerAccounting,
>)
    ensures
        match r {
            Some(p) => peer_shape(*peer_value) && peer_parsed(p, *peer_value, well_known_to_peer_names@),
            None => !peer_shape(*peer_value),
        },
{
    let fields = match peer_value {
        BusValue::Structure(fields) => fields,
        _ => {
            return None;
        },
    };
    if fields.len() < 3 {
        return None;
    }
    match (&fields[0], &fields[1], &fields[2]) {
        (BusValue::Str(id), BusValue::Dict(credentials), BusValue::Dict(stats)) => {
            let well_known_name = match well_known_to_peer_names.get(id.as_str()) {
                Some(n) => Some(n.clone()),
                None => None,
            };
            Some(
                DBusBrokerPeerAccounting {
                    id: id.clone(),
                    well_known_name,
                    unix_user_id: get_u32(credentials, "UnixUserID"),
                    process_id: get_u32(credentials, "ProcessID"),
                    unix_group_ids: get_u32_vec(credentials, "UnixGroupIDs"),
                    name_objects: get_u32(stats, "NameObjects"),
                    match_bytes: get_u32(stats, "MatchBytes"),
                    matches: get_u32(stats, "Matches"),
                    reply_objects: get_u32(stats, "ReplyObjects"),
                    incoming_bytes: get_u32(stats, "IncomingBytes"),
                    incoming_fds: get_u32(stats, "IncomingFds"),
                    outgoing_bytes: get_u32(stats, "OutgoingBytes"),
                    outgoing_fds: get_u32(stats, "OutgoingFds"),
                    activation_request_bytes: get_u32(stats, "ActivationRequestBytes"),
                    activation_request_fds: get_u32(stats, "ActivationRequestFds"),
                },
            )
        },
        _ => None,
    }
}

/// `peers` are the peers read from the entries of shape, in order.
pub open spec fn peers_parsed(
    peers: Seq<DBusBrokerPeerAccounting>,
    items: Seq<BusValue>,
    well_known: Map<Seq<char>, String>,
) -> bool
    decreases items.len(),
{
    if items.len() == 0 {
        peers.len() == 0
    } else if peer_shape(items.last()) {
        &&& peers.len() > 0
        &&& peer_parsed(peers.last(), items.last(), well_known)
        &&& peers_parsed(peers.drop_last(), items.drop_last(), well_known)
    } else {
        peers_parsed(peers, items.drop_last(), well_known)
    }
}

/// The peers of a `PeerAccounting` reply: `None` when neither peer nor
/// cgroup statistics are on (the cgroup ones are derived from the peers),
/// when the reply has no such entry, or when it is not an array; else the
/// entries of the right shape, read in order.
pub fn parse_peer_accounting(
    config: &Config,
    value: Option<&BusValue>,
    well_known_to_peer_names: &StrMap<String>,
) -> (r: Option<Vec<DBusBrokerPeerAccounting>>)
    ensures
        match r {
            Some(peers) => {
                &&& config.dbus_stats.peer_stats || config.dbus_stats.cgroup_stats
                &&& value matches Some(v) && v matches BusValue::Array(items)
                    && peers_parsed(peers@, items@, well_known_to_peer_names@)
            },
            None => !(config.dbus_stats.peer_stats || config.dbus_stats.cgroup_stats) || !(value matches Some(
                v,
            ) && v is Array),
        },
{
    if !config.dbus_stats.peer_stats && !config.dbus_stats.cgroup_stats {
        return None;
    }
    let items = match value {
        Some(BusValue::Array(items)) => items,
        _ => {
            return None;
        },
    };
    let mut peers: Vec<DBusBrokerPeerAccounting> = Vec::new();
    let mut i: usize = 0;
    while i < items.len()
        invariant
            i <= items@.len(),
            peers_parsed(peers@, items@.take(i as int), well_known_to_peer_names@),
        decreases items.len() - i,
    {
        proof {
            assert(items@.take(i + 1).drop_last() =~= items@.take(i as int));
            assert(items@.take(i + 1).last() == items@[i as int]);
        }
        let ghost before = peers@;
        match parse_peer_struct(&items[i], well_known_to_peer_names) {
            Some(p) => {
                peers.push(p);
                proof {
                    assert(peers@.drop_last() =~= before);
                }
            },
            None => {},
        }
        i = i + 1;
    }
    proof {
        assert(items@.take(i as int) =~= items@);
    }
    Some(peers)
}

/// The four quotas of a user: bytes, file descriptors, matches, objects.
pub type Quotas = (Option<CurMaxPair>, Option<CurMaxPair>, Option<CurMaxPair>, Option<CurMaxPair>);

/// The quotas after one entry of a user's statistics: a structure of a
/// name, a remaining count and a maximum sets the quota of that name;
/// anything else changes nothing.
pub open spec fn quota_step(q: Quotas, s: BusValue) -> Quotas {
    match s {
        BusValue::Structure(f) => if f.len() >= 3 {
            match (f@[0], f@[1], f@[2]) {
                (BusValue::Str(name), BusValue::U32(cur), BusValue::U32(max)) => {
                    let pair = CurMaxPair { cur, max };
                    if name@ == "Bytes"@ {
                        (Some(pair), q.1, q.2, q.3)
                    } else if name@ == "Fds"@ {
                        (q.0, Some(pair), q.2, q.3)
                    } else if name@ == "Matches"@ {
                        (q.0, q.1, Some(pair), q.3)
                    } else if name@ == "Objects"@ {
                        (q.0, q.1, q.2, Some(pair))
                    } else {
                        q
                    }
                },
                _ => q,
            }
        } else {
            q
        },
        _ => q,
    }
}

/// The quotas after a user's statistics, in order.
pub open spec fn quotas_of(stats: Seq<BusValue>) -> Quotas
    decreases stats.len(),
{
    if stats.len() == 0 {
        (None, None, None, None)
    } else {
        quota_step(quotas_of(stats.drop_last()), stats.last())
    }
}

/// A user entry: a structure whose first fields are the uid and an array
/// of statistics.
pub open spec fn user_shape(v: BusValue) -> bool {
    match v {
        BusValue::Structure(f) => f.len() >= 2 && f@[0] is U32 && f@[1] is Array,
        _ => false,
    }
}

/// `u` is the user read from the entry `v`, whose shape is right: its uid
/// and quotas. (Its name is what the user database gives.)
pub open spec fn user_parsed(u: DBusBrokerUserAccounting, v: BusValue) -> bool {
    match v {
        BusValue::Structure(f) => match (f@[0], f@[1]) {
            (BusValue::U32(uid), BusValue::Array(stats)) => {
                &&& u.uid == uid
                &&& (u.bytes, u.fds, u.matches, u.objects) == quotas_of(stats@)
            },
            _ => false,
        },
        _ => false,
    }
}

/// Read a user entry of `UserAccounting`; `None` when its shape is wrong.
/// The user is named as the user database names the uid.
pub fn parse_user_struct(user_value: &BusValue) -> (r: Option<DBusBrokerUserAccounting>)
    ensures
        match r {
            Some(u) => user_shape(*user_value) && user_parsed(u, *user_value),
            None => !user_shape(*user_value),
        },
{
    let fields = match user_value {
        BusValue::Structure(fields) => fields,
        _ => {
            return None;
        },
    };
    if fields.len() < 2 {
        return None;
    }
    match (&fields[0], &fields[1]) {
        (BusValue::U32(uid), BusValue::Array(user_stats)) => {
            let mut user = DBusBrokerUserAccounting::for_uid(*uid);
            let mut i: usize = 0;
            while i < user_stats.len()
                invariant
                    i <= user_stats@.len(),
                    user.uid == *uid,
                    (user.bytes, user.fds, user.matches, user.objects) == quotas_of(user_stats@.take(i as int)),
                decreases user_stats.len() - i,
            {
                proof {
                    assert(user_stats@.take(i + 1).drop_last() =~= user_stats@.take(i as int));
                    assert(user_stats@.take(i + 1).last() == user_stats@[i as int]);
                }
                match &user_stats[i] {
                    BusValue::Structure(stat) => {
                        if stat.len() >= 3 {
                            match (&stat[0], &stat[1], &stat[2]) {
                                (BusValue::Str(name), BusValue::U32(cur), BusValue::U32(max)) => {
                                    let pair = CurMaxPair { cur: *cur, max: *max };
                                    if str_eq(name.as_str(), "Bytes") {
                                        user.bytes = Some(pair);
                                    } else if str_eq(name.as_str(), "Fds") {
                                        user.fds = Some(pair);
                                    } else if str_eq(name.as_str(), "Matches") {
                                        user.matches = Some(pair);
                                    } else if str_eq(name.as_str(), "Objects") {
                                        user.objects = Some(pair);
                                    }
                                },
                                _ => {},
                            }
                        }
                    },
                    _ => {},
                }
                i = i + 1;
            }
            proof {
                assert(user_stats@.take(i as int) =~= user_stats@);
            }
            Some(user)
        },
        _ => None,
    }
}

/// `users` are the users read from the entries of shape, in order.
pub open spec fn users_parsed(users: Seq<DBusBrokerUserAccounting>, items: Seq<BusValue>) -> bool
    decreases items.len(),
{
    if items.len() == 0 {
        users.len() == 0
    } else if user_shape(items.last()) {
        &&& users.len() > 0
        &&& user_parsed(users.last(), items.last())
        &&& users_parsed(users.drop_last(), items.drop_last())
    } else {
        users_parsed(users, items.drop_last())
    }
}

/// Whether a user is reported: neither its uid (in decimal) nor its name
/// is on the blocklist, and with a non-empty allowlist one of them is on it.
pub open spec fn user_passes(c: crate::config::DBusStatsConfig, uid: u32, name: Seq<char>) -> bool {
    &&& !c.user_blocklist@.contains(dec_string(uid as nat))
    &&& !c.user_blocklist@.contains(name)
    &&& (c.user_allowlist@ == Set::<Seq<char>>::empty() || c.user_allowlist@.contains(
        dec_string(uid as nat),
    ) || c.user_allowlist@.contains(name))
}

/// What is reported of a user: its uid, name and quotas.
pub type UserView = (u32, Seq<char>, Quotas);

pub open spec fn user_view(u: DBusBrokerUserAccounting) -> UserView {
    (u.uid, u.username@, (u.bytes, u.fds, u.matches, u.objects))
}

/// The users that pass, keyed by uid: a later user with the same uid
/// replaces an earlier one.
pub open spec fn users_by_uid(c: crate::config::DBusStatsConfig, users: Seq<DBusBrokerUserAccounting>) -> Map<
    u32,
    UserView,
>
    decreases users.len(),
{
    if users.len() == 0 {
        Map::empty()
    } else {
        let rest = users_by_uid(c, users.drop_last());
        let u = users.last();
        if user_passes(c, u.uid, u.username@) {
            rest.insert(u.uid, user_view(u))
        } else {
            rest
        }
    }
}

/// The reported users as a map by uid, each uid once.
pub open spec fn users_map(users: Seq<DBusBrokerUserAccounting>) -> Map<u32, UserView> {
    Map::new(
        |uid: u32| exists|i: int| 0 <= i < users.len() && users[i].uid == uid,
        |uid: u32| user_view(users[choose|i: int| 0 <= i < users.len() && users[i].uid == uid]),
    )
}

/// No two users share a uid.
pub open spec fn uids_distinct(users: Seq<DBusBrokerUserAccounting>) -> bool {
    forall|i: int, j: int| 0 <= i < j < users.len() ==> users[i].uid != users[j].uid
}

fn user_passes_exec(c: &crate::config::DBusStatsConfig, u: &DBusBrokerUserAccounting) -> (r: bool)
    ensures
        r == user_passes(*c, u.uid, u.username@),
{
    let uid = crate::dbus_stats::u64_to_string(u.uid as u64);
    if !c.user_blocklist.is_empty() {
        if c.user_blocklist.contains(uid.as_str()) || c.user_blocklist.contains(u.username.as_str()) {
            return false;
        }
    }
    if !c.user_allowlist.is_empty() {
        if !c.user_allowlist.contains(uid.as_str()) && !c.user_allowlist.contains(u.username.as_str()) {
            return false;
        }
    }
    true
}

/// The users that pass the filters, each uid once (a later user with the
/// same uid replaces an earlier one).
pub fn filter_users(config: &Config, users: Vec<DBusBrokerUserAccounting>) -> (r: Vec<DBusBrokerUserAccounting>)
    ensures
        uids_distinct(r@),
        users_map(r@) == users_by_uid(config.dbus_stats, users@),
{
    let ghost all = users@;
    let mut v = users;
    let mut r: Vec<DBusBrokerUserAccounting> = Vec::new();
    let mut k: usize = 0;
    let n = v.len();
    proof {
        assert(all.skip(0) =~= all);
        assert(users_map(r@) =~= users_by_uid(config.dbus_stats, all.take(0)));
    }
    while v.len() > 0
        invariant
            k + v.len() == n,
            n == all.len(),
            v@ == all.skip(k as int),
            uids_distinct(r@),
            users_map(r@) == users_by_uid(config.dbus_stats, all.take(k as int)),
        decreases v.len(),
    {
        let u = v.remove(0);
        proof {
            assert(u == all[k as int]);
            assert(v@ =~= all.skip(k + 1));
            assert(all.take(k + 1).drop_last() =~= all.take(k as int));
            assert(all.take(k + 1).last() == u);
        }
        if user_passes_exec(&config.dbus_stats, &u) {
            let ghost before = r@;
            let ghost uv = user_view(u);
            let ghost uid = u.uid;
            let mut j: usize = 0;
            while j < r.len()
                invariant
                    j <= r@.len(),
                    r@ == before,
                    u.uid == uid,
                    forall|i: int| 0 <= i < j ==> #[trigger] r@[i].uid != uid,
                ensures
                    j <= r@.len(),
                    r@ == before,
                    forall|i: int| 0 <= i < j ==> #[trigger] r@[i].uid != uid,
                    j < r@.len() ==> r@[j as int].uid == uid,
                decreases r.len() - j,
            {
                if r[j].uid == u.uid {
                    break;
                }
                j = j + 1;
            }
            if j < r.len() {
                r.set(j, u);
                proof {
                    assert(before[j as int].uid == uid);
                    assert forall|a: int, b: int| 0 <= a < b < r@.len() implies r@[a].uid != r@[b].uid by {
                        assert(r@[a].uid == before[a].uid);
                        assert(r@[b].uid == before[b].uid);
                    }
                    assert(users_map(r@) =~= users_map(before).insert(uid, uv)) by {
                        assert forall|x: u32| #[trigger] users_map(r@).dom().contains(x) implies users_map(r@)[x] == users_map(before).insert(uid, uv)[x] by {
                            let i = choose|i: int| 0 <= i < r@.len() && r@[i].uid == x;
                            if x == uid {
                                assert(i == j as int);
                            } else {
                                assert(r@[i] == before[i]);
                                assert(before[i].uid == x);
                                let i2 = choose|i: int| 0 <= i < before.len() && before[i].uid == x;
                                assert(i2 == i);
                            }
                        }
                        assert forall|x: u32| users_map(before).insert(uid, uv).dom().contains(x) implies #[trigger] users_map(r@).dom().contains(x) by {
                            if x == uid {
                                assert(r@[j as int].uid == x);
                            } else {
                                let i = choose|i: int| 0 <= i < before.len() && before[i].uid == x;
                                assert(r@[i].uid == x);
                            }
                        }
                    }
                }
            } else {
                r.push(u);
                proof {
                    assert forall|a: int, b: int| 0 <= a < b < r@.len() implies r@[a].uid != r@[b].uid by {
                        if b == before.len() {
                            assert(r@[a] == before[a]);
                        } else {
                            assert(r@[a] == before[a]);
                            assert(r@[b] == before[b]);
                        }
                    }
                    assert(users_map(r@) =~= users_map(before).insert(uid, uv)) by {
                        assert forall|x: u32| #[trigger] users_map(r@).dom().contains(x) implies users_map(r@)[x] == users_map(before).insert(uid, uv)[x] by {
                            let i = choose|i: int| 0 <= i < r@.len() && r@[i].uid == x;
                            if x == uid {
                                assert(i == before.len());
                            } else {
                                assert(r@[i] == before[i]);
                                let i2 = choose|i: int| 0 <= i < before.len() && before[i].uid == x;
                                assert(i2 == i);
                            }
                        }
                        assert forall|x: u32| users_map(before).insert(uid, uv).dom().contains(x) implies #[trigger] users_map(r@).dom().contains(x) by {
                            if x == uid {
                                assert(r@[before.len() as int].uid == x);
                            } else {
                                let i = choose|i: int| 0 <= i < before.len() && before[i].uid == x;
                                assert(r@[i].uid == x);
                            }
                        }
                    }
                }
            }
        }
        k = k + 1;
    }
    proof {
        assert(all.take(k as int) =~= all);
    }
    r
}

/// The users of a `UserAccounting` reply: `None` when user statistics are
/// off or the reply is not an array; else the entries of the right shape,
/// read in order, named by the user database, and filtered as in
/// `filter_users`.
pub fn parse_user_accounting(config: &Config, value: &BusValue) -> (r: Option<Vec<DBusBrokerUserAccounting>>)
    ensures
        match r {
            Some(users) => {
                &&& config.dbus_stats.user_stats
                &&& value matches BusValue::Array(items) && exists|parsed: Seq<DBusBrokerUserAccounting>|
                    #[trigger] users_parsed(parsed, items@) && users_map(users@) == users_by_uid(
                        config.dbus_stats,
                        parsed,
                    )
                &&& uids_distinct(users@)
            },
            None => !config.dbus_stats.user_stats || !(value is Array),
        },
{
    if !config.dbus_stats.user_stats {
        return None;
    }
    let items = match value {
        BusValue::Array(items) => items,
        _ => {
            return None;
        },
    };
    let mut parsed: Vec<DBusBrokerUserAccounting> = Vec::new();
    let mut i: usize = 0;
    while i < items.len()
        invariant
            i <= items@.len(),
            users_parsed(parsed@, items@.take(i as int)),
        decreases items.len() - i,
    {
        proof {
            assert(items@.take(i + 1).drop_last() =~= items@.take(i as int));
            assert(items@.take(i + 1).last() == items@[i as int]);
        }
        let ghost before = parsed@;
        match parse_user_struct(&items[i]) {
            Some(u) => {
                parsed.push(u);
                proof {
                    assert(parsed@.drop_last() =~= before);
                }
            },
            None => {},
        }
        i = i + 1;
    }
    proof {
        assert(items@.take(i as int) =~= items@);
    }
    let ghost all = parsed@;
    let r = filter_users(config, parsed);
    proof {
        assert(users_parsed(all, items@));
    }
    Some(r)
}


/// With a user allowlist and no user blocklist, one more user is reported
/// (by uid, replacing an earlier one with that uid) exactly when the
/// allowlist holds its uid in decimal or its name.
pub proof fn lemma_user_allowlist_keeps(
    c: crate::config::DBusStatsConfig,
    users: Seq<DBusBrokerUserAccounting>,
    u: DBusBrokerUserAccounting,
)
    requires
        c.user_allowlist@ != Set::<Seq<char>>::empty(),
        c.user_blocklist@ == Set::<Seq<char>>::empty(),
    ensures
        users_by_uid(c, users.push(u)) == if c.user_allowlist@.contains(dec_string(u.uid as nat))
            || c.user_allowlist@.contains(u.username@) {
            users_by_uid(c, users).insert(u.uid, user_view(u))
        } else {
            users_by_uid(c, users)
        },
{
    assert(users.push(u).drop_last() =~= users);
}

/// A user whose uid (in decimal) or name is on the user blocklist is never
/// reported, whatever the allowlist says.
pub proof fn lemma_user_blocklist_drops(
    c: crate::config::DBusStatsConfig,
    users: Seq<DBusBrokerUserAccounting>,
    u: DBusBrokerUserAccounting,
)
    requires
        c.user_blocklist@.contains(dec_string(u.uid as nat)) || c.user_blocklist@.contains(u.username@),
    ensures
        users_by_uid(c, users.push(u)) == users_by_uid(c, users),
{
    assert(users.push(u).drop_last() =~= users);
}

} // verus!
