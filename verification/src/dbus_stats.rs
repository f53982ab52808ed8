//! Statistics of the D-Bus daemon or broker (`org.freedesktop.DBus.Debug.Stats`)
//! and the per-peer, per-cgroup and per-user accounting of dbus-broker.
use vstd::prelude::*;

use crate::config::Config;
use crate::strmap::{seq_to_map, StrMap};
use crate::text::{dec_string, has_prefix, str_chars, string_from_range, string_of, trim};

verus! {

/// Per-peer resource accounting from dbus-broker's `PeerAccounting`; a peer
/// is one D-Bus connection, named by its unique bus name.
#[derive(Debug)]
pub struct DBusBrokerPeerAccounting {
    /// Unique connection name, e.g. ":1.42".
    pub id: String,
    /// Well-known bus name owned by this peer, if any.
    pub well_known_name: Option<String>,
    pub unix_user_id: Option<u32>,
    pub process_id: Option<u32>,
    pub unix_group_ids: Option<Vec<u32>>,
    pub name_objects: Option<u32>,
    pub match_bytes: Option<u32>,
    pub matches: Option<u32>,
    pub reply_objects: Option<u32>,
    pub incoming_bytes: Option<u32>,
    pub incoming_fds: Option<u32>,
    pub outgoing_bytes: Option<u32>,
    pub outgoing_fds: Option<u32>,
    pub activation_request_bytes: Option<u32>,
    pub activation_request_fds: Option<u32>,
}

impl Default for DBusBrokerPeerAccounting {
    fn default() -> (r: Self)
        ensures
            r.id@ == Seq::<char>::empty(),
            r.well_known_name is None,
            r.unix_user_id is None,
            r.process_id is None,
            r.unix_group_ids is None,
            r.name_objects is None,
            r.match_bytes is None,
            r.matches is None,
            r.reply_objects is None,
            r.incoming_bytes is None,
            r.incoming_fds is None,
            r.outgoing_bytes is None,
            r.outgoing_fds is None,
            r.activation_request_bytes is None,
            r.activation_request_fds is None,
    {
        DBusBrokerPeerAccounting {
            id: String::new(),
            well_known_name: None,
            unix_user_id: None,
            process_id: None,
            unix_group_ids: None,
            name_objects: None,
            match_bytes: None,
            matches: None,
            reply_objects: None,
            incoming_bytes: None,
            incoming_fds: None,
            outgoing_bytes: None,
            outgoing_fds: None,
            activation_request_bytes: None,
            activation_request_fds: None,
        }
    }
}

/// The name a peer is reported under: its well-known name, or its unique
/// connection name when it owns none.
pub open spec fn peer_name(p: DBusBrokerPeerAccounting) -> Seq<char> {
    match p.well_known_name {
        Some(n) => n@,
        None => p.id@,
    }
}

impl DBusBrokerPeerAccounting {
    /// Whether the peer owns a well-known name.
    pub fn has_well_known_name(&self) -> (r: bool)
        ensures
            r == self.well_known_name is Some,
    {
        self.well_known_name.is_some()
    }

    /// The well-known name if the peer owns one, else its unique name.
    pub fn get_name(&self) -> (r: String)
        ensures
            r@ == peer_name(*self),
    {
        match &self.well_known_name {
            Some(n) => n.clone(),
            None => self.id.clone(),
        }
    }
}

/// `s` without its leading `'/'` characters.
pub open spec fn trim_start_slashes(s: Seq<char>) -> Seq<char>
    decreases s.len(),
{
    if s.len() > 0 && s[0] == '/' {
        trim_start_slashes(s.drop_first())
    } else {
        s
    }
}

/// `s` without its trailing `'/'` characters.
pub open spec fn trim_end_slashes(s: Seq<char>) -> Seq<char>
    decreases s.len(),
{
    if s.len() > 0 && s.last() == '/' {
        trim_end_slashes(s.drop_last())
    } else {
        s
    }
}

/// Every `'/'` of `s` replaced by `'-'`.
pub open spec fn slashes_to_dashes(s: Seq<char>) -> Seq<char> {
    s.map_values(|c: char| if c == '/' { '-' } else { c })
}

/// The cgroup name of a process from the content of `/proc/<pid>/cgroup`
/// (cgroup v2: `0::/system.slice/foo.service`): the path after `0::`,
/// trimmed of whitespace and of slashes at both ends, with the remaining
/// slashes turned into dashes. `None` when the content does not start with
/// `0::`.
pub open spec fn cgroup_name_of(content: Seq<char>) -> Option<Seq<char>> {
    if has_prefix(content, "0::"@) {
        Some(slashes_to_dashes(trim_end_slashes(trim_start_slashes(trim(content.skip(3))))))
    } else {
        None
    }
}

/// Name the cgroup that `/proc/<pid>/cgroup` places a process in, e.g.
/// `system.slice-sshd.service`.
pub fn parse_cgroup_name(content: &str) -> (r: Option<String>)
    ensures
        match r {
            Some(n) => cgroup_name_of(content@) == Some(n@),
            None => cgroup_name_of(content@) is None,
        },
{
    let v = str_chars(content);
    proof {
        reveal_strlit("0::");
    }
    if v.len() < 3 || v[0] != '0' || v[1] != ':' || v[2] != ':' {
        proof {
            if v.len() >= 3 {
                assert(v@.take(3) != "0::"@ ) by {
                    if v@.take(3) == "0::"@ {
                        assert(v@.take(3)[0] == '0');
                        assert(v@.take(3)[1] == ':');
                        assert(v@.take(3)[2] == ':');
                    }
                }
            }
        }
        return None;
    }
    proof {
        assert(v@.take(3) =~= "0::"@);
        assert(v@.subrange(3, v@.len() as int) =~= content@.skip(3));
    }
    let (lo0, hi0) = crate::text::trim_range(&v, 3, v.len());
    let mut a = lo0;
    while a < hi0 && v[a] == '/'
        invariant
            lo0 <= a <= hi0 <= v.len(),
            trim_start_slashes(v@.subrange(lo0 as int, hi0 as int)) == trim_start_slashes(
                v@.subrange(a as int, hi0 as int),
            ),
        decreases hi0 - a,
    {
        proof {
            assert(v@.subrange(a as int, hi0 as int).drop_first() =~= v@.subrange(a + 1, hi0 as int));
        }
        a += 1;
    }
    let mut b = hi0;
    while b > a && v[b - 1] == '/'
        invariant
            lo0 <= a <= b <= hi0 <= v.len(),
            trim_start_slashes(v@.subrange(lo0 as int, hi0 as int)) == v@.subrange(a as int, hi0 as int),
            trim_end_slashes(v@.subrange(a as int, hi0 as int)) == trim_end_slashes(
                v@.subrange(a as int, b as int),
            ),
        decreases b - a,
    {
        proof {
            assert(v@.subrange(a as int, b as int).drop_last() =~= v@.subrange(a as int, b - 1));
        }
        b -= 1;
    }
    let mut out = String::new();
    let mut i = a;
    while i < b
        invariant
            a <= i <= b <= v.len(),
            out@ == slashes_to_dashes(v@.subrange(a as int, i as int)),
        decreases b - i,
    {
        let c = if v[i] == '/' {
            '-'
        } else {
            v[i]
        };
        crate::text::string_push(&mut out, c);
        proof {
            assert(slashes_to_dashes(v@.subrange(a as int, i + 1)) =~= slashes_to_dashes(
                v@.subrange(a as int, i as int),
            ).push(c));
        }
        i += 1;
    }
    Some(out)
}

/// `a + b` as `u32` arithmetic wraps.
pub open spec fn wrap_add(a: u32, b: u32) -> u32 {
    if a + b > u32::MAX {
        (a + b - 0x1_0000_0000) as u32
    } else {
        (a + b) as u32
    }
}

/// The sum of two optional counters: present when either is.
pub open spec fn sum_opt(a: Option<u32>, b: Option<u32>) -> Option<u32> {
    match (a, b) {
        (Some(x), Some(y)) => Some(wrap_add(x, y)),
        (Some(x), None) => Some(x),
        (None, Some(y)) => Some(y),
        (None, None) => None,
    }
}

fn sum(a: Option<u32>, b: Option<u32>) -> (r: Option<u32>)
    ensures
        r == sum_opt(a, b),
{
    match (a, b) {
        (Some(x), Some(y)) => Some(x.wrapping_add(y)),
        (Some(x), None) => Some(x),
        (None, Some(y)) => Some(y),
        (None, None) => None,
    }
}

/// D-Bus accounting of all peers in one cgroup: the sums of their counters.
#[derive(Debug)]
pub struct DBusBrokerCGroupAccounting {
    /// The cgroup's name, slashes turned into dashes.
    pub name: String,
    pub name_objects: Option<u32>,
    pub match_bytes: Option<u32>,
    pub matches: Option<u32>,
    pub reply_objects: Option<u32>,
    pub incoming_bytes: Option<u32>,
    pub incoming_fds: Option<u32>,
    pub outgoing_bytes: Option<u32>,
    pub outgoing_fds: Option<u32>,
    pub activation_request_bytes: Option<u32>,
    pub activation_request_fds: Option<u32>,
}

impl Clone for DBusBrokerCGroupAccounting {
    fn clone(&self) -> (r: Self)
        ensures
            r == *self,
    {
        DBusBrokerCGroupAccounting {
            name: self.name.clone(),
            name_objects: self.name_objects,
            match_bytes: self.match_bytes,
            matches: self.matches,
            reply_objects: self.reply_objects,
            incoming_bytes: self.incoming_bytes,
            incoming_fds: self.incoming_fds,
            outgoing_bytes: self.outgoing_bytes,
            outgoing_fds: self.outgoing_fds,
            activation_request_bytes: self.activation_request_bytes,
            activation_request_fds: self.activation_request_fds,
        }
    }
}

/// `c` with the counters of `p` added in; the name stays.
pub open spec fn combined(c: DBusBrokerCGroupAccounting, p: DBusBrokerPeerAccounting) -> DBusBrokerCGroupAccounting {
    DBusBrokerCGroupAccounting {
        name: c.name,
        name_objects: sum_opt(c.name_objects, p.name_objects),
        match_bytes: sum_opt(c.match_bytes, p.match_bytes),
        matches: sum_opt(c.matches, p.matches),
        reply_objects: sum_opt(c.reply_objects, p.reply_objects),
        incoming_bytes: sum_opt(c.incoming_bytes, p.incoming_bytes),
        incoming_fds: sum_opt(c.incoming_fds, p.incoming_fds),
        outgoing_bytes: sum_opt(c.outgoing_bytes, p.outgoing_bytes),
        outgoing_fds: sum_opt(c.outgoing_fds, p.outgoing_fds),
        activation_request_bytes: sum_opt(c.activation_request_bytes, p.activation_request_bytes),
        activation_request_fds: sum_opt(c.activation_request_fds, p.activation_request_fds),
    }
}

impl DBusBrokerCGroupAccounting {
    /// A cgroup with no counters yet.
    pub fn named(name: String) -> (r: Self)
        ensures
            r.name == name,
            r.name_objects is None,
            r.match_bytes is None,
            r.matches is None,
            r.reply_objects is None,
            r.incoming_bytes is None,
            r.incoming_fds is None,
            r.outgoing_bytes is None,
            r.outgoing_fds is None,
            r.activation_request_bytes is None,
            r.activation_request_fds is None,
    {
        DBusBrokerCGroupAccounting {
            name,
            name_objects: None,
            match_bytes: None,
            matches: None,
            reply_objects: None,
            incoming_bytes: None,
            incoming_fds: None,
            outgoing_bytes: None,
            outgoing_fds: None,
            activation_request_bytes: None,
            activation_request_fds: None,
        }
    }

    /// Add a peer's counters to the cgroup's: a counter is present when
    /// either side has it, and two present ones are summed (wrapping at
    /// 2^32 as `u32` addition does in a release build).
    pub fn combine_with_peer(&mut self, peer: &DBusBrokerPeerAccounting)
        ensures
            *final(self) == combined(*old(self), *peer),
    {
        self.name_objects = sum(self.name_objects, peer.name_objects);
        self.match_bytes = sum(self.match_bytes, peer.match_bytes);
        self.matches = sum(self.matches, peer.matches);
        self.reply_objects = sum(self.reply_objects, peer.reply_objects);
        self.incoming_bytes = sum(self.incoming_bytes, peer.incoming_bytes);
        self.incoming_fds = sum(self.incoming_fds, peer.incoming_fds);
        self.outgoing_bytes = sum(self.outgoing_bytes, peer.outgoing_bytes);
        self.outgoing_fds = sum(self.outgoing_fds, peer.outgoing_fds);
        self.activation_request_bytes = sum(self.activation_request_bytes, peer.activation_request_bytes);
        self.activation_request_fds = sum(self.activation_request_fds, peer.activation_request_fds);
    }
}

/// A current/maximum quota pair of dbus-broker's `UserAccounting`. dbus-broker
/// reports the remaining quota as `cur`: the usage is `max - cur`.
#[derive(Clone, Copy, Debug, PartialEq, Eq, Structural)]
pub struct CurMaxPair {
    pub cur: u32,
    pub max: u32,
}

/// `a - b` as `u32` arithmetic wraps.
pub open spec fn wrap_sub(a: u32, b: u32) -> u32 {
    if a >= b {
        (a - b) as u32
    } else {
        (a - b + 0x1_0000_0000) as u32
    }
}

impl CurMaxPair {
    /// The quota used: `max - cur` (wrapping, as `u32` subtraction does in a
    /// release build, should `cur` ever exceed `max`).
    pub fn get_usage(&self) -> (r: u32)
        ensures
            r == wrap_sub(self.max, self.cur),
            self.cur <= self.max ==> r == self.max - self.cur,
    {
        self.max.wrapping_sub(self.cur)
    }
}

/// Per-user quotas from dbus-broker's `UserAccounting`, over all of the
/// user's connections.
#[derive(Debug)]
pub struct DBusBrokerUserAccounting {
    pub uid: u32,
    /// The user's name, or the uid in decimal when it has none.
    pub username: String,
    pub bytes: Option<CurMaxPair>,
    pub fds: Option<CurMaxPair>,
    pub matches: Option<CurMaxPair>,
    pub objects: Option<CurMaxPair>,
}

impl Clone for DBusBrokerUserAccounting {
    fn clone(&self) -> (r: Self)
        ensures
            r == *self,
    {
        DBusBrokerUserAccounting {
            uid: self.uid,
            username: self.username.clone(),
            bytes: self.bytes,
            fds: self.fds,
            matches: self.matches,
            objects: self.objects,
        }
    }
}

/// The decimal form of a number.
pub fn u64_to_string(n: u64) -> (r: String)
    ensures
        r@ == dec_string(n as nat),
{
    let mut r = String::new();
    push_dec(&mut r, n);
    proof {
        assert(Seq::<char>::empty() + dec_string(n as nat) =~= dec_string(n as nat));
    }
    r
}

fn digit(d: u64) -> (c: char)
    requires
        d < 10,
    ensures
        c == crate::text::digit_char(d as nat),
{
    match d {
        0 => '0',
        1 => '1',
        2 => '2',
        3 => '3',
        4 => '4',
        5 => '5',
        6 => '6',
        7 => '7',
        8 => '8',
        _ => '9',
    }
}

fn push_dec(out: &mut String, n: u64)
    ensures
        final(out)@ == old(out)@ + dec_string(n as nat),
    decreases n,
{
    if n >= 10 {
        push_dec(out, n / 10);
    }
    crate::text::string_push(out, digit(n % 10));
    proof {
        if n >= 10 {
            assert(dec_string(n as nat) == dec_string((n / 10) as nat).push(
                crate::text::digit_char((n % 10) as nat),
            ));
        }
    }
}

/// The name of the user with this uid in the user database, if any.
///
/// Trusted: calls `uzers::get_user_by_uid`, which looks the uid up in the
/// system's user database; what it finds depends on the machine, so
/// nothing is stated of the result.
#[verifier::external_body]
fn lookup_user_name(uid: u32) -> Option<String> {
    uzers::get_user_by_uid(uid).map(|user| user.name().to_string_lossy().into_owned())
}

impl DBusBrokerUserAccounting {
    /// Accounting for `uid` with no quotas yet, reported under `name` when
    /// the user has one and under the uid in decimal otherwise.
    pub fn new(uid: u32, name: Option<String>) -> (r: Self)
        ensures
            r.uid == uid,
            r.username@ == (match name {
                Some(n) => n@,
                None => dec_string(uid as nat),
            }),
            r.bytes is None,
            r.fds is None,
            r.matches is None,
            r.objects is None,
    {
        let username = match name {
            Some(n) => n,
            None => u64_to_string(uid as u64),
        };
        DBusBrokerUserAccounting { uid, username, bytes: None, fds: None, matches: None, objects: None }
    }

    /// Accounting for `uid`, named as the user database names the user.
    pub fn for_uid(uid: u32) -> (r: Self)
        ensures
            r.uid == uid,
            r.bytes is None,
            r.fds is None,
            r.matches is None,
            r.objects is None,
    {
        let name = lookup_user_name(uid);
        Self::new(uid, name)
    }
}


/// The ten counters that peers and cgroups share.
#[derive(Clone, Copy, Debug, PartialEq, Eq, Structural)]
pub struct Counters {
    pub name_objects: Option<u32>,
    pub match_bytes: Option<u32>,
    pub matches: Option<u32>,
    pub reply_objects: Option<u32>,
    pub incoming_bytes: Option<u32>,
    pub incoming_fds: Option<u32>,
    pub outgoing_bytes: Option<u32>,
    pub outgoing_fds: Option<u32>,
    pub activation_request_bytes: Option<u32>,
    pub activation_request_fds: Option<u32>,
}

pub open spec fn no_counters() -> Counters {
    Counters {
        name_objects: None,
        match_bytes: None,
        matches: None,
        reply_objects: None,
        incoming_bytes: None,
        incoming_fds: None,
        outgoing_bytes: None,
        outgoing_fds: None,
        activation_request_bytes: None,
        activation_request_fds: None,
    }
}

pub open spec fn cgroup_counters(c: DBusBrokerCGroupAccounting) -> Counters {
    Counters {
        name_objects: c.name_objects,
        match_bytes: c.match_bytes,
        matches: c.matches,
        reply_objects: c.reply_objects,
        incoming_bytes: c.incoming_bytes,
        incoming_fds: c.incoming_fds,
        outgoing_bytes: c.outgoing_bytes,
        outgoing_fds: c.outgoing_fds,
        activation_request_bytes: c.activation_request_bytes,
        activation_request_fds: c.activation_request_fds,
    }
}

pub open spec fn peer_counters(p: DBusBrokerPeerAccounting) -> Counters {
    Counters {
        name_objects: p.name_objects,
        match_bytes: p.match_bytes,
        matches: p.matches,
        reply_objects: p.reply_objects,
        incoming_bytes: p.incoming_bytes,
        incoming_fds: p.incoming_fds,
        outgoing_bytes: p.outgoing_bytes,
        outgoing_fds: p.outgoing_fds,
        activation_request_bytes: p.activation_request_bytes,
        activation_request_fds: p.activation_request_fds,
    }
}

/// Two sets of counters added as `combine_with_peer` adds them.
pub open spec fn add_counters(a: Counters, b: Counters) -> Counters {
    Counters {
        name_objects: sum_opt(a.name_objects, b.name_objects),
        match_bytes: sum_opt(a.match_bytes, b.match_bytes),
        matches: sum_opt(a.matches, b.matches),
        reply_objects: sum_opt(a.reply_objects, b.reply_objects),
        incoming_bytes: sum_opt(a.incoming_bytes, b.incoming_bytes),
        incoming_fds: sum_opt(a.incoming_fds, b.incoming_fds),
        outgoing_bytes: sum_opt(a.outgoing_bytes, b.outgoing_bytes),
        outgoing_fds: sum_opt(a.outgoing_fds, b.outgoing_fds),
        activation_request_bytes: sum_opt(a.activation_request_bytes, b.activation_request_bytes),
        activation_request_fds: sum_opt(a.activation_request_fds, b.activation_request_fds),
    }
}

/// D-Bus daemon or broker statistics. The broker's maps are present only
/// when collected.
#[derive(Debug)]
pub struct DBusStats {
    pub serial: Option<u32>,
    pub active_connections: Option<u32>,
    pub incomplete_connections: Option<u32>,
    pub bus_names: Option<u32>,
    pub peak_bus_names: Option<u32>,
    pub peak_bus_names_per_connection: Option<u32>,
    pub match_rules: Option<u32>,
    pub peak_match_rules: Option<u32>,
    pub peak_match_rules_per_connection: Option<u32>,
    /// Per-peer accounting, keyed by unique connection name.
    pub dbus_broker_peer_accounting: Option<StrMap<DBusBrokerPeerAccounting>>,
    /// Per-cgroup accounting, keyed by cgroup name.
    pub dbus_broker_cgroup_accounting: Option<StrMap<DBusBrokerCGroupAccounting>>,
    /// Per-user accounting, one entry per uid.
    pub dbus_broker_user_accounting: Option<Vec<DBusBrokerUserAccounting>>,
    /// The cgroup of each peer whose cgroup could be read, keyed by the
    /// peer's unique connection name.
    pub peer_cgroups: StrMap<String>,
}

impl Default for DBusStats {
    fn default() -> (r: Self)
        ensures
            r.serial is None,
            r.active_connections is None,
            r.incomplete_connections is None,
            r.bus_names is None,
            r.peak_bus_names is None,
            r.peak_bus_names_per_connection is None,
            r.match_rules is None,
            r.peak_match_rules is None,
            r.peak_match_rules_per_connection is None,
            r.dbus_broker_peer_accounting is None,
            r.dbus_broker_cgroup_accounting is None,
            r.dbus_broker_user_accounting is None,
            r.peer_cgroups@ == Map::<Seq<char>, String>::empty(),
    {
        DBusStats {
            serial: None,
            active_connections: None,
            incomplete_connections: None,
            bus_names: None,
            peak_bus_names: None,
            peak_bus_names_per_connection: None,
            match_rules: None,
            peak_match_rules: None,
            peak_match_rules_per_connection: None,
            dbus_broker_peer_accounting: None,
            dbus_broker_cgroup_accounting: None,
            dbus_broker_user_accounting: None,
            peer_cgroups: StrMap::new(),
        }
    }
}

/// Whether a peer is reported: with `peer_well_known_names_only` it must
/// own a well-known name; neither its unique nor its reported name may be
/// on the blocklist; and with a non-empty allowlist one of them must be on
/// it.
pub open spec fn peer_passes(c: crate::config::DBusStatsConfig, p: DBusBrokerPeerAccounting) -> bool {
    &&& !(c.peer_well_known_names_only && p.well_known_name is None)
    &&& !c.peer_blocklist@.contains(p.id@)
    &&& !c.peer_blocklist@.contains(peer_name(p))
    &&& (c.peer_allowlist@ == Set::<Seq<char>>::empty() || c.peer_allowlist@.contains(p.id@)
        || c.peer_allowlist@.contains(peer_name(p)))
}

/// The peers that pass, keyed by unique name, in order.
pub open spec fn peer_entries(
    c: crate::config::DBusStatsConfig,
    peers: Seq<DBusBrokerPeerAccounting>,
) -> Seq<(Seq<char>, DBusBrokerPeerAccounting)>
    decreases peers.len(),
{
    if peers.len() == 0 {
        Seq::empty()
    } else {
        let rest = peer_entries(c, peers.drop_last());
        if peer_passes(c, peers.last()) {
            rest.push((peers.last().id@, peers.last()))
        } else {
            rest
        }
    }
}

fn peer_passes_exec(c: &crate::config::DBusStatsConfig, p: &DBusBrokerPeerAccounting) -> (r: bool)
    ensures
        r == peer_passes(*c, *p),
{
    if c.peer_well_known_names_only && !p.has_well_known_name() {
        return false;
    }
    let name = p.get_name();
    if !c.peer_blocklist.is_empty() {
        if c.peer_blocklist.contains(p.id.as_str()) || c.peer_blocklist.contains(name.as_str()) {
            return false;
        }
    } else {
        assert(!c.peer_blocklist@.contains(p.id@));
        assert(!c.peer_blocklist@.contains(peer_name(*p)));
    }
    if !c.peer_allowlist.is_empty() {
        if !c.peer_allowlist.contains(p.id.as_str()) && !c.peer_allowlist.contains(name.as_str()) {
            return false;
        }
    }
    true
}

/// The reported peers: `None` unless peer stats are on and peers were
/// collected; otherwise the peers that pass the filters, keyed by unique
/// connection name (a later peer with the same name replaces an earlier).
pub fn filter_and_collect_peer_accounting(
    config: &Config,
    peers: Option<Vec<DBusBrokerPeerAccounting>>,
) -> (r: Option<StrMap<DBusBrokerPeerAccounting>>)
    ensures
        !config.dbus_stats.peer_stats ==> r is None,
        config.dbus_stats.peer_stats ==> match peers {
            None => r is None,
            Some(v) => r is Some && r.unwrap()@ == seq_to_map(peer_entries(config.dbus_stats, v@)),
        },
{
    if !config.dbus_stats.peer_stats {
        return None;
    }
    let mut v = match peers {
        Some(v) => v,
        None => {
            return None;
        },
    };
    let ghost all = v@;
    let mut result: StrMap<DBusBrokerPeerAccounting> = StrMap::new();
    let mut k: usize = 0;
    let n = v.len();
    proof {
        assert(all.take(0) =~= Seq::<DBusBrokerPeerAccounting>::empty());
        assert(all.skip(0) =~= all);
    }
    while v.len() > 0
        invariant
            k + v.len() == n,
            n == all.len(),
            v@ == all.skip(k as int),
            result@ == seq_to_map(peer_entries(config.dbus_stats, all.take(k as int))),
        decreases v.len(),
    {
        let p = v.remove(0);
        proof {
            assert(p == all[k as int]);
            assert(v@ =~= all.skip(k + 1));
            assert(all.take(k + 1).drop_last() =~= all.take(k as int));
            assert(all.take(k + 1).last() == p);
        }
        let ghost gp = p;
        let ghost before = peer_entries(config.dbus_stats, all.take(k as int));
        if peer_passes_exec(&config.dbus_stats, &p) {
            let id = p.id.clone();
            result.insert(id, p);
            proof {
                let x = (gp.id@, gp);
                assert(peer_entries(config.dbus_stats, all.take(k + 1)) == before.push(x));
                assert(before.push(x).drop_last() =~= before);
                assert(seq_to_map(before.push(x)) == seq_to_map(before).insert(x.0, x.1));
            }
        } else {
            proof {
                assert(peer_entries(config.dbus_stats, all.take(k + 1)) == before);
            }
        }
        k = k + 1;
    }
    proof {
        assert(all.take(k as int) =~= all);
    }
    Some(result)
}

/// Whether a cgroup is reported: not on the blocklist, and on the allowlist
/// when that is not empty.
pub open spec fn cgroup_passes(allow: Set<Seq<char>>, block: Set<Seq<char>>, name: Seq<char>) -> bool {
    !block.contains(name) && (allow == Set::<Seq<char>>::empty() || allow.contains(name))
}

/// The counters of each reported cgroup: every peer whose cgroup is known
/// and passes the filters adds its counters to its cgroup's.
pub open spec fn cgroup_totals(
    allow: Set<Seq<char>>,
    block: Set<Seq<char>>,
    cgroups: Map<Seq<char>, String>,
    peers: Seq<DBusBrokerPeerAccounting>,
) -> Map<Seq<char>, Counters>
    decreases peers.len(),
{
    if peers.len() == 0 {
        Map::empty()
    } else {
        let m = cgroup_totals(allow, block, cgroups, peers.drop_last());
        let p = peers.last();
        if cgroups.dom().contains(p.id@) && cgroup_passes(allow, block, cgroups[p.id@]@) {
            let n = cgroups[p.id@]@;
            let cur = if m.dom().contains(n) {
                m[n]
            } else {
                no_counters()
            };
            m.insert(n, add_counters(cur, peer_counters(p)))
        } else {
            m
        }
    }
}

/// The accounting map holds, for each cgroup name, an entry of that name
/// with these counters.
pub open spec fn cgroups_match(m: Map<Seq<char>, DBusBrokerCGroupAccounting>, totals: Map<Seq<char>, Counters>) -> bool {
    &&& m.dom() == totals.dom()
    &&& forall|k: Seq<char>| #[trigger] m.dom().contains(k) ==> m[k].name@ == k && cgroup_counters(m[k]) == totals[k]
}

/// Group the peers by cgroup, summing their counters.
pub fn group_peers_by_cgroup(
    peers: &Vec<DBusBrokerPeerAccounting>,
    cgroups: &StrMap<String>,
    allow: &crate::names::NameSet,
    block: &crate::names::NameSet,
) -> (r: StrMap<DBusBrokerCGroupAccounting>)
    ensures
        cgroups_match(r@, cgroup_totals(allow@, block@, cgroups@, peers@)),
{
    let mut result: StrMap<DBusBrokerCGroupAccounting> = StrMap::new();
    let mut i: usize = 0;
    proof {
        assert(peers@.take(0) =~= Seq::<DBusBrokerPeerAccounting>::empty());
        assert(result@ =~= Map::<Seq<char>, DBusBrokerCGroupAccounting>::empty());
    }
    while i < peers.len()
        invariant
            i <= peers.len(),
            cgroups_match(result@, cgroup_totals(allow@, block@, cgroups@, peers@.take(i as int))),
        decreases peers.len() - i,
    {
        let p = &peers[i];
        let ghost prev = cgroup_totals(allow@, block@, cgroups@, peers@.take(i as int));
        proof {
            assert(peers@.take(i + 1).drop_last() =~= peers@.take(i as int));
            assert(peers@.take(i + 1).last() == *p);
        }
        match cgroups.get(p.id.as_str()) {
            Some(name) => {
                let passes = !block.contains(name.as_str()) && (allow.is_empty() || allow.contains(name.as_str()));
                if passes {
                    match result.position(name.as_str()) {
                        Some(j) => {
                            let _count = result.len();
                            let (_, cur) = result.entry_at(j);
                            let mut updated = cur.clone();
                            updated.combine_with_peer(p);
                            result.set_at(j, updated);
                        },
                        None => {
                            let mut fresh = DBusBrokerCGroupAccounting::named(name.clone());
                            fresh.combine_with_peer(p);
                            result.insert(name.clone(), fresh);
                        },
                    }
                    proof {
                        let now = cgroup_totals(allow@, block@, cgroups@, peers@.take(i + 1));
                        assert(result@.dom() =~= now.dom());
                    }
                }
            },
            None => {},
        }
        i = i + 1;
    }
    proof {
        assert(peers@.take(i as int) =~= peers@);
    }
    result
}


/// The peers' values of a peer map, in its order.
pub open spec fn peer_values(m: StrMap<DBusBrokerPeerAccounting>) -> Seq<DBusBrokerPeerAccounting> {
    m.items().map_values(|e: (Seq<char>, DBusBrokerPeerAccounting)| e.1)
}

/// Group the peers of a peer map by cgroup, summing their counters.
fn group_peer_map_by_cgroup(
    peers: &StrMap<DBusBrokerPeerAccounting>,
    cgroups: &StrMap<String>,
    allow: &crate::names::NameSet,
    block: &crate::names::NameSet,
) -> (r: StrMap<DBusBrokerCGroupAccounting>)
    ensures
        cgroups_match(r@, cgroup_totals(allow@, block@, cgroups@, peer_values(*peers))),
{
    let ghost all = peer_values(*peers);
    let n = peers.len();
    let mut result: StrMap<DBusBrokerCGroupAccounting> = StrMap::new();
    let mut i: usize = 0;
    proof {
        assert(all.take(0) =~= Seq::<DBusBrokerPeerAccounting>::empty());
        assert(result@ =~= Map::<Seq<char>, DBusBrokerCGroupAccounting>::empty());
    }
    while i < n
        invariant
            i <= n,
            n == peers.items().len(),
            all == peer_values(*peers),
            all.len() == n,
            cgroups_match(result@, cgroup_totals(allow@, block@, cgroups@, all.take(i as int))),
        decreases n - i,
    {
        let (_, p) = peers.entry_at(i);
        proof {
            assert(all[i as int] == *p);
            assert(all.take(i + 1).drop_last() =~= all.take(i as int));
            assert(all.take(i + 1).last() == *p);
        }
        match cgroups.get(p.id.as_str()) {
            Some(name) => {
                let passes = !block.contains(name.as_str()) && (allow.is_empty() || allow.contains(name.as_str()));
                if passes {
                    match result.position(name.as_str()) {
                        Some(j) => {
                            let _count = result.len();
                            let (_, cur) = result.entry_at(j);
                            let mut updated = cur.clone();
                            updated.combine_with_peer(p);
                            result.set_at(j, updated);
                        },
                        None => {
                            let mut fresh = DBusBrokerCGroupAccounting::named(name.clone());
                            fresh.combine_with_peer(p);
                            result.insert(name.clone(), fresh);
                        },
                    }
                    proof {
                        let now = cgroup_totals(allow@, block@, cgroups@, all.take(i + 1));
                        assert(result@.dom() =~= now.dom());
                    }
                }
            },
            None => {},
        }
        i = i + 1;
    }
    proof {
        assert(all.take(i as int) =~= all);
    }
    result
}

/// The reported cgroups: `None` unless cgroup stats are on and peers were
/// collected; otherwise every peer whose cgroup is known (from `cgroups`,
/// keyed by the peer's unique name) and passes the cgroup filters adds its
/// counters to its cgroup's.
pub fn filter_and_collect_cgroup_accounting(
    config: &Config,
    peers: Option<&Vec<DBusBrokerPeerAccounting>>,
    cgroups: &StrMap<String>,
) -> (r: Option<StrMap<DBusBrokerCGroupAccounting>>)
    ensures
        !config.dbus_stats.cgroup_stats ==> r is None,
        config.dbus_stats.cgroup_stats ==> match peers {
            None => r is None,
            Some(v) => r is Some && cgroups_match(
                r.unwrap()@,
                cgroup_totals(
                    config.dbus_stats.cgroup_allowlist@,
                    config.dbus_stats.cgroup_blocklist@,
                    cgroups@,
                    v@,
                ),
            ),
        },
{
    if !config.dbus_stats.cgroup_stats {
        return None;
    }
    match peers {
        Some(v) => Some(
            group_peers_by_cgroup(
                v,
                cgroups,
                &config.dbus_stats.cgroup_allowlist,
                &config.dbus_stats.cgroup_blocklist,
            ),
        ),
        None => None,
    }
}

fn copy_cgroup_map(m: &StrMap<DBusBrokerCGroupAccounting>) -> (r: StrMap<DBusBrokerCGroupAccounting>)
    ensures
        r@ == m@,
{
    let n = m.len();
    let ghost items = m.items();
    let mut r: StrMap<DBusBrokerCGroupAccounting> = StrMap::new();
    let mut i: usize = 0;
    proof {
        assert(items.take(0) =~= Seq::<(Seq<char>, DBusBrokerCGroupAccounting)>::empty());
    }
    while i < n
        invariant
            i <= n,
            n == items.len(),
            items == m.items(),
            crate::strmap::keys_distinct(items),
            r@ == seq_to_map(items.take(i as int)),
            forall|k: Seq<char>| #[trigger] r@.dom().contains(k) ==> exists|j: int| 0 <= j < i && #[trigger] items[j].0 == k,
        decreases n - i,
    {
        let (k, v) = m.entry_at(i);
        let key = k.clone();
        let val = v.clone();
        proof {
            crate::strmap::lemma_seq_to_map(items.take(i as int));
            assert(!r@.dom().contains(key@)) by {
                if r@.dom().contains(key@) {
                    let j = choose|j: int| 0 <= j < i && #[trigger] items[j].0 == key@;
                    assert(items[j].0 != items[i as int].0);
                }
            }
            assert(items.take(i + 1).drop_last() =~= items.take(i as int));
        }
        r.insert(key, val);
        proof {
            assert forall|k2: Seq<char>| #[trigger] r@.dom().contains(k2) implies exists|j: int| 0 <= j < i + 1 && #[trigger] items[j].0 == k2 by {
                if k2 != key@ {
                    let j = choose|j: int| 0 <= j < i && #[trigger] items[j].0 == k2;
                    assert(0 <= j < i + 1);
                } else {
                    assert(items[i as int].0 == k2);
                }
            }
        }
        i = i + 1;
    }
    proof {
        assert(items.take(i as int) =~= items);
        crate::strmap::lemma_seq_to_map(items);
        assert(r@ =~= m@);
    }
    r
}

/// `r` is the per-cgroup accounting of `s`: the stored map when there is
/// one; otherwise, when there are peers, their counters grouped by cgroup;
/// otherwise none.
pub open spec fn cgroup_accounting_gives(s: DBusStats, r: Option<StrMap<DBusBrokerCGroupAccounting>>) -> bool {
    match s.dbus_broker_cgroup_accounting {
        Some(m) => r is Some && r.unwrap()@ == m@,
        None => match s.dbus_broker_peer_accounting {
            Some(p) => if p@.dom().len() == 0 {
                r is None
            } else {
                r is Some && cgroups_match(
                    r.unwrap()@,
                    cgroup_totals(Set::empty(), Set::empty(), s.peer_cgroups@, peer_values(p)),
                )
            },
            None => r is None,
        },
    }
}

impl DBusStats {
    /// The per-peer accounting, when collected.
    pub fn peer_accounting(&self) -> (r: Option<&StrMap<DBusBrokerPeerAccounting>>)
        ensures
            match self.dbus_broker_peer_accounting {
                Some(m) => r is Some && *r.unwrap() == m,
                None => r is None,
            },
    {
        self.dbus_broker_peer_accounting.as_ref()
    }

    /// The per-user accounting, when collected.
    pub fn user_accounting(&self) -> (r: Option<&Vec<DBusBrokerUserAccounting>>)
        ensures
            match self.dbus_broker_user_accounting {
                Some(v) => r is Some && *r.unwrap() == v,
                None => r is None,
            },
    {
        self.dbus_broker_user_accounting.as_ref()
    }

    /// The per-cgroup accounting: as collected when it was; otherwise, when
    /// peers were collected and there are any, the peers grouped by the
    /// cgroups known for them (unfiltered); otherwise `None`.
    pub fn cgroup_accounting(&self) -> (r: Option<StrMap<DBusBrokerCGroupAccounting>>)
        ensures
            cgroup_accounting_gives(*self, r),
    {
        match &self.dbus_broker_cgroup_accounting {
            Some(m) => Some(copy_cgroup_map(m)),
            None => match &self.dbus_broker_peer_accounting {
                Some(p) => {
                    if p.is_empty() {
                        None
                    } else {
                        let none = crate::names::NameSet::new();
                        Some(group_peer_map_by_cgroup(p, &self.peer_cgroups, &none, &none))
                    }
                },
                None => None,
            },
        }
    }
}


/// With a peer allowlist, no peer blocklist and well-known names not
/// required, one more peer is kept, under its unique name and after the
/// peers kept before, exactly when the allowlist holds its unique name or
/// its well-known name.
pub proof fn lemma_peer_allowlist_keeps(
    c: crate::config::DBusStatsConfig,
    peers: Seq<DBusBrokerPeerAccounting>,
    p: DBusBrokerPeerAccounting,
)
    requires
        c.peer_allowlist@ != Set::<Seq<char>>::empty(),
        c.peer_blocklist@ == Set::<Seq<char>>::empty(),
        !c.peer_well_known_names_only,
    ensures
        peer_entries(c, peers.push(p)) == if c.peer_allowlist@.contains(p.id@) || (p.well_known_name matches Some(
            n,
        ) && c.peer_allowlist@.contains(n@)) {
            peer_entries(c, peers).push((p.id@, p))
        } else {
            peer_entries(c, peers)
        },
{
    assert(peers.push(p).drop_last() =~= peers);
}

/// A peer whose unique or well-known name is on the peer blocklist is never
/// kept, whatever the allowlist says.
pub proof fn lemma_peer_blocklist_drops(
    c: crate::config::DBusStatsConfig,
    peers: Seq<DBusBrokerPeerAccounting>,
    p: DBusBrokerPeerAccounting,
)
    requires
        c.peer_blocklist@.contains(p.id@) || (p.well_known_name matches Some(n) && c.peer_blocklist@.contains(n@)),
    ensures
        peer_entries(c, peers.push(p)) == peer_entries(c, peers),
{
    assert(peers.push(p).drop_last() =~= peers);
}

/// With no allowlist or blocklist and well-known names not required, every
/// peer is kept, under its unique name, in order.
pub proof fn lemma_peer_unfiltered_keeps_all(
    c: crate::config::DBusStatsConfig,
    peers: Seq<DBusBrokerPeerAccounting>,
    p: DBusBrokerPeerAccounting,
)
    requires
        c.peer_allowlist@ == Set::<Seq<char>>::empty(),
        c.peer_blocklist@ == Set::<Seq<char>>::empty(),
        !c.peer_well_known_names_only,
    ensures
        peer_entries(c, peers.push(p)) == peer_entries(c, peers).push((p.id@, p)),
{
    assert(peers.push(p).drop_last() =~= peers);
}

/// With well-known names required, a peer with none is never kept.
pub proof fn lemma_peer_without_name_dropped(
    c: crate::config::DBusStatsConfig,
    peers: Seq<DBusBrokerPeerAccounting>,
    p: DBusBrokerPeerAccounting,
)
    requires
        c.peer_well_known_names_only,
        p.well_known_name is None,
    ensures
        peer_entries(c, peers.push(p)) == peer_entries(c, peers),
{
    assert(peers.push(p).drop_last() =~= peers);
}


/// A peer whose cgroup is on the cgroup blocklist, or missing from a
/// non-empty cgroup allowlist, or unknown, adds nothing to any cgroup.
pub proof fn lemma_cgroup_filtered_peer_adds_nothing(
    allow: Set<Seq<char>>,
    block: Set<Seq<char>>,
    cgroups: Map<Seq<char>, String>,
    peers: Seq<DBusBrokerPeerAccounting>,
    p: DBusBrokerPeerAccounting,
)
    requires
        !cgroups.dom().contains(p.id@) || block.contains(cgroups[p.id@]@) || (allow != Set::<Seq<char>>::empty()
            && !allow.contains(cgroups[p.id@]@)),
    ensures
        cgroup_totals(allow, block, cgroups, peers.push(p)) == cgroup_totals(allow, block, cgroups, peers),
{
    assert(peers.push(p).drop_last() =~= peers);
}

/// With no cgroup filters, a peer of a known cgroup adds its counters to
/// that cgroup's, and no other cgroup changes.
pub proof fn lemma_cgroup_peer_adds_counters(
    cgroups: Map<Seq<char>, String>,
    peers: Seq<DBusBrokerPeerAccounting>,
    p: DBusBrokerPeerAccounting,
)
    requires
        cgroups.dom().contains(p.id@),
    ensures
        ({
            let e = Set::<Seq<char>>::empty();
            let before = cgroup_totals(e, e, cgroups, peers);
            let after = cgroup_totals(e, e, cgroups, peers.push(p));
            let n = cgroups[p.id@]@;
            &&& after.dom() == before.dom().insert(n)
            &&& after[n] == add_counters(if before.dom().contains(n) { before[n] } else { no_counters() }, peer_counters(p))
            &&& forall|k: Seq<char>| k != n && before.dom().contains(k) ==> after[k] == #[trigger] before[k]
        }),
{
    assert(peers.push(p).drop_last() =~= peers);
}

} // verus!
