//! Which machines (containers) are collected, and when a machine's cached
//! connection can be reused.
use vstd::prelude::*;

use crate::dbus_stats::u64_to_string;
use crate::names::NameSet;
use crate::strmap::StrMap;
use crate::text::{dec_string, push_str};

verus! {

/// A machine as systemd-machined's `ListMachines` reports it.
#[derive(Clone, Debug, PartialEq, Eq)]
pub struct ListedMachine {
    pub name: String,
    /// "container" or "vm".
    pub class: String,
    pub service: String,
    /// The machine's D-Bus object path.
    pub path: String,
}

/// Whether a machine is collected: it is a container, not on the blocklist,
/// and on the allowlist when that is not empty.
pub open spec fn machine_selected(m: ListedMachine, allow: Set<Seq<char>>, block: Set<Seq<char>>) -> bool {
    &&& m.class@ == "container"@
    &&& !block.contains(m.name@)
    &&& (allow == Set::<Seq<char>>::empty() || allow.contains(m.name@))
}

/// The selected machines of `ms`, in order.
pub open spec fn selected_machines(
    ms: Seq<ListedMachine>,
    allow: Set<Seq<char>>,
    block: Set<Seq<char>>,
) -> Seq<ListedMachine>
    decreases ms.len(),
{
    if ms.len() == 0 {
        Seq::empty()
    } else {
        let rest = selected_machines(ms.drop_last(), allow, block);
        if machine_selected(ms.last(), allow, block) {
            rest.push(ms.last())
        } else {
            rest
        }
    }
}

/// The containers to collect: those not on the blocklist and, when the
/// allowlist is not empty, on it; order is kept.
pub fn filter_machines(machines: Vec<ListedMachine>, allowlist: &NameSet, blocklist: &NameSet) -> (r: Vec<
    ListedMachine,
>)
    ensures
        r@ == selected_machines(machines@, allowlist@, blocklist@),
{
    let ghost all = machines@;
    let mut v = machines;
    let mut r: Vec<ListedMachine> = Vec::new();
    let mut k: usize = 0;
    let n = v.len();
    proof {
        assert(all.take(0) =~= Seq::<ListedMachine>::empty());
        assert(all.skip(0) =~= all);
    }
    while v.len() > 0
        invariant
            k + v.len() == n,
            n == all.len(),
            v@ == all.skip(k as int),
            r@ == selected_machines(all.take(k as int), allowlist@, blocklist@),
        decreases v.len(),
    {
        let m = v.remove(0);
        proof {
            assert(m == all[k as int]);
            assert(v@ =~= all.skip(k + 1));
            assert(all.take(k + 1).drop_last() =~= all.take(k as int));
            assert(all.take(k + 1).last() == m);
        }
        let keep = crate::text::str_eq(m.class.as_str(), "container") && !blocklist.contains(
            m.name.as_str(),
        ) && (allowlist.is_empty() || allowlist.contains(m.name.as_str()));
        if keep {
            r.push(m);
        }
        k = k + 1;
    }
    proof {
        assert(all.take(k as int) =~= all);
    }
    r
}

/// What to do with a machine's cached connection.
#[derive(Clone, Copy, Debug, PartialEq, Eq, Structural)]
pub enum CacheAction {
    /// A cached connection with the same leader PID: reuse it.
    Reuse,
    /// A cached connection whose leader PID changed: drop it, make a new one.
    Replace,
    /// No cached connection: make one.
    Create,
}

/// The cache action for a machine whose cached connection (if any) was made
/// for `cached_pid` and whose leader is now `leader_pid`.
pub fn decide_cache_action(cached_pid: Option<u32>, leader_pid: u32) -> (r: CacheAction)
    ensures
        r == (match cached_pid {
            Some(pid) => if pid == leader_pid {
                CacheAction::Reuse
            } else {
                CacheAction::Replace
            },
            None => CacheAction::Create,
        }),
{
    match cached_pid {
        Some(pid) => {
            if pid == leader_pid {
                CacheAction::Reuse
            } else {
                CacheAction::Replace
            }
        },
        None => CacheAction::Create,
    }
}

/// The root of a container's file system as seen from the host.
pub open spec fn container_root_of(leader_pid: u32) -> Seq<char> {
    "/proc/"@ + dec_string(leader_pid as nat) + "/root"@
}

/// `/proc/<leader_pid>/root`: where the host sees a container's files.
pub fn container_root(leader_pid: u32) -> (r: String)
    ensures
        r@ == container_root_of(leader_pid),
{
    let mut r = crate::text::string_of("/proc/");
    let pid = u64_to_string(leader_pid as u64);
    push_str(&mut r, pid.as_str());
    push_str(&mut r, "/root");
    r
}

/// A path inside a container, as seen from the host.
pub fn container_path(leader_pid: u32, path: &str) -> (r: String)
    ensures
        r@ == container_root_of(leader_pid) + path@,
{
    let mut r = container_root(leader_pid);
    push_str(&mut r, path);
    r
}

/// The address of a container's system bus.
pub fn container_bus_address(leader_pid: u32) -> (r: String)
    ensures
        r@ == "unix:path="@ + container_root_of(leader_pid) + "/run/dbus/system_bus_socket"@,
{
    let mut r = crate::text::string_of("unix:path=");
    let root = container_root(leader_pid);
    push_str(&mut r, root.as_str());
    push_str(&mut r, "/run/dbus/system_bus_socket");
    r
}

/// The cached machines that are no longer running, in order.
pub open spec fn stale_of(cached: Seq<Seq<char>>, current: Set<Seq<char>>) -> Seq<Seq<char>>
    decreases cached.len(),
{
    if cached.len() == 0 {
        Seq::empty()
    } else {
        let rest = stale_of(cached.drop_last(), current);
        if current.contains(cached.last()) {
            rest
        } else {
            rest.push(cached.last())
        }
    }
}

/// The cached machines whose connections are dropped: those that are not
/// among the current machines (name to leader PID).
pub fn stale_machines(cached: &Vec<String>, current: &StrMap<u32>) -> (r: Vec<String>)
    ensures
        r@.map_values(|s: String| s@) == stale_of(cached@.map_values(|s: String| s@), current@.dom()),
{
    let ghost names = cached@.map_values(|s: String| s@);
    let mut r: Vec<String> = Vec::new();
    let mut i: usize = 0;
    while i < cached.len()
        invariant
            i <= cached@.len(),
            names == cached@.map_values(|s: String| s@),
            r@.map_values(|s: String| s@) == stale_of(names.take(i as int), current@.dom()),
        decreases cached.len() - i,
    {
        proof {
            assert(names.take(i + 1).drop_last() =~= names.take(i as int));
            assert(names.take(i + 1).last() == cached@[i as int]@);
        }
        if !current.contains_key(cached[i].as_str()) {
            let ghost before = r@.map_values(|s: String| s@);
            r.push(cached[i].clone());
            proof {
                assert(r@.map_values(|s: String| s@) =~= before.push(cached@[i as int]@));
            }
        }
        i = i + 1;
    }
    proof {
        assert(names.take(i as int) =~= names);
    }
    r
}

/// What is cached of a machine's varlink connector for its current leader.
#[derive(Clone, Copy, Debug, PartialEq, Eq, Structural)]
pub enum CachedConnector {
    /// A connector that is still running.
    Alive,
    /// A connector whose process has exited.
    Exited,
    /// The error of an earlier attempt to spawn one.
    Failed,
}

/// How a machine's varlink connector is had.
#[derive(Clone, Copy, Debug, PartialEq, Eq, Structural)]
pub enum ConnectorStep {
    /// Varlink is not tried for this machine: collect over D-Bus.
    NotTried,
    /// Joining machine namespaces was found not to be permitted: fail with
    /// that error rather than fall back.
    Unavailable,
    /// Use the cached connector, or the cached error of spawning one.
    UseCached,
    /// Spawn a connector.
    Spawn,
}

/// The step for a machine: nothing when varlink is off for machines; when
/// joining machine namespaces is known not to be permitted, an error under
/// `no_fallback` and D-Bus otherwise; else the cached connector (or spawn
/// error) for the same leader, unless none is cached or it exited.
pub fn connector_step(
    use_varlink: bool,
    known_unavailable: bool,
    no_fallback: bool,
    cached: Option<CachedConnector>,
) -> (r: ConnectorStep)
    ensures
        r == (if !use_varlink {
            ConnectorStep::NotTried
        } else if known_unavailable {
            if no_fallback {
                ConnectorStep::Unavailable
            } else {
                ConnectorStep::NotTried
            }
        } else {
            match cached {
                Some(CachedConnector::Alive) => ConnectorStep::UseCached,
                Some(CachedConnector::Failed) => ConnectorStep::UseCached,
                _ => ConnectorStep::Spawn,
            }
        }),
{
    if !use_varlink {
        return ConnectorStep::NotTried;
    }
    if known_unavailable {
        return if no_fallback {
            ConnectorStep::Unavailable
        } else {
            ConnectorStep::NotTried
        };
    }
    match cached {
        Some(CachedConnector::Alive) => ConnectorStep::UseCached,
        Some(CachedConnector::Failed) => ConnectorStep::UseCached,
        _ => ConnectorStep::Spawn,
    }
}

/// What follows an attempt to spawn a connector.
#[derive(Clone, Copy, Debug, PartialEq, Eq, Structural)]
pub enum SpawnOutcome {
    /// Cache the connector (or the spawn error) for this leader and use it.
    CacheAndUse,
    /// Not permitted: remember that for good, and fail with the error.
    UnavailableError,
    /// Not permitted: remember that for good, and collect over D-Bus.
    UnavailableFallback,
}

/// After a spawn: a permission error is remembered and, unless
/// `no_fallback`, sends the machine to D-Bus; anything else (a connector or
/// another error) is cached and used.
pub fn after_spawn(spawned: bool, permission_denied: bool, no_fallback: bool) -> (r: SpawnOutcome)
    ensures
        r == (if !spawned && permission_denied {
            if no_fallback {
                SpawnOutcome::UnavailableError
            } else {
                SpawnOutcome::UnavailableFallback
            }
        } else {
            SpawnOutcome::CacheAndUse
        }),
{
    if !spawned && permission_denied {
        if no_fallback {
            SpawnOutcome::UnavailableError
        } else {
            SpawnOutcome::UnavailableFallback
        }
    } else {
        SpawnOutcome::CacheAndUse
    }
}

} // verus!
