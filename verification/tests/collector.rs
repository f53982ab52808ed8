use monitord::collector::{collect_interval_ms, end_of_cycle, plan_collectors, CollectorPlan, CycleEnd};
use monitord::config::Config;

#[test]
fn the_default_plan() {
    let plan = plan_collectors(&Config::default());
    assert_eq!(
        plan,
        CollectorPlan {
            pid1: true,
            networkd: false,
            system_state: true,
            units: true,
            machines: true,
            dbus_stats: true,
            boot_blame: false,
            verify: false,
        }
    );
    assert!(!plan.only_version());
}

#[test]
fn only_the_version_collector() {
    let mut config = Config::default();
    config.pid1.enabled = false;
    config.system_state.enabled = false;
    config.units.enabled = false;
    config.dbus_stats.enabled = false;
    config.machines.enabled = false;
    assert!(plan_collectors(&config).only_version());
}

#[test]
fn intervals_and_cycle_ends() {
    let mut config = Config::default();
    assert_eq!(collect_interval_ms(&config), 0);
    config.monitord.daemon = true;
    config.monitord.daemon_stats_refresh_secs = 30;
    assert_eq!(collect_interval_ms(&config), 30_000);
    assert_eq!(end_of_cycle(false, false, 0, 12), CycleEnd::Finish { return_connection: true });
    assert_eq!(end_of_cycle(false, true, 0, 12), CycleEnd::Finish { return_connection: false });
    assert_eq!(end_of_cycle(true, true, 30_000, 1_000), CycleEnd::Sleep { ms: 29_000, reset_connection: true });
    assert_eq!(end_of_cycle(true, false, 30_000, 30_000), CycleEnd::Sleep { ms: 0, reset_connection: false });
}
