use monitord::machines::{
    after_spawn, connector_step, container_bus_address, container_path, container_root, decide_cache_action,
    filter_machines, stale_machines, CacheAction, CachedConnector, ConnectorStep, ListedMachine, SpawnOutcome,
};
use monitord::names::NameSet;
use monitord::strmap::StrMap;

fn machine(name: &str, class: &str) -> ListedMachine {
    ListedMachine {
        name: name.to_string(),
        class: class.to_string(),
        service: "".to_string(),
        path: "/sample/object".to_string(),
    }
}

#[test]
fn test_filter_machines() {
    let machines = vec![machine("foo", "container"), machine("bar", "container"), machine("baz", "container")];
    let allowlist = NameSet::from_names(vec!["foo".to_string(), "baz".to_string()]);
    let blocklist = NameSet::from_names(vec!["bar".to_string()]);

    let filtered = filter_machines(machines, &allowlist, &blocklist);

    assert_eq!(filtered.len(), 2);
    assert_eq!(filtered[0].name, "foo");
    assert_eq!(filtered[1].name, "baz");
}

#[test]
fn test_decide_cache_action_reuse_on_same_pid() {
    assert_eq!(decide_cache_action(Some(42), 42), CacheAction::Reuse);
}

#[test]
fn test_decide_cache_action_replace_on_pid_change() {
    assert_eq!(decide_cache_action(Some(42), 99), CacheAction::Replace);
}

#[test]
fn test_decide_cache_action_create_on_miss() {
    assert_eq!(decide_cache_action(None, 42), CacheAction::Create);
}

#[test]
fn only_containers_are_collected() {
    let filtered = filter_machines(
        vec![machine("vm1", "vm"), machine("c1", "container")],
        &NameSet::new(),
        &NameSet::new(),
    );
    assert_eq!(filtered.len(), 1);
    assert_eq!(filtered[0].name, "c1");
}

#[test]
fn container_paths() {
    assert_eq!(container_root(4242), "/proc/4242/root");
    assert_eq!(container_path(7, "/run/systemd/netif/links"), "/proc/7/root/run/systemd/netif/links");
    assert_eq!(container_bus_address(1), "unix:path=/proc/1/root/run/dbus/system_bus_socket");
}

#[test]
fn machines_that_are_gone_are_evicted() {
    let mut current: StrMap<u32> = StrMap::new();
    current.insert("a".to_string(), 10);
    current.insert("c".to_string(), 30);
    let cached = vec!["a".to_string(), "b".to_string(), "c".to_string(), "d".to_string()];
    assert_eq!(stale_machines(&cached, &current), vec!["b".to_string(), "d".to_string()]);
}

#[test]
fn connector_steps() {
    assert_eq!(connector_step(false, false, false, Some(CachedConnector::Alive)), ConnectorStep::NotTried);
    assert_eq!(connector_step(true, true, false, None), ConnectorStep::NotTried);
    assert_eq!(connector_step(true, true, true, None), ConnectorStep::Unavailable);
    assert_eq!(connector_step(true, false, false, Some(CachedConnector::Alive)), ConnectorStep::UseCached);
    assert_eq!(connector_step(true, false, false, Some(CachedConnector::Failed)), ConnectorStep::UseCached);
    assert_eq!(connector_step(true, false, false, Some(CachedConnector::Exited)), ConnectorStep::Spawn);
    assert_eq!(connector_step(true, false, false, None), ConnectorStep::Spawn);
    assert_eq!(after_spawn(true, false, true), SpawnOutcome::CacheAndUse);
    assert_eq!(after_spawn(false, false, true), SpawnOutcome::CacheAndUse);
    assert_eq!(after_spawn(false, true, true), SpawnOutcome::UnavailableError);
    assert_eq!(after_spawn(false, true, false), SpawnOutcome::UnavailableFallback);
}
