use monitord::cgroup::CgroupStats;
use monitord::varlink::unit::{
    CGroupRuntime, ExecContext, ListOutput, ServiceContext, ServiceRuntime, TimerContext, TimerRuntime,
    Timestamp, UnitContext, UnitRuntime,
};
use monitord::varlink_unit::{is_oneshot, map_service_stats, map_timer_stats, timer_triggered_unit};

fn output(context: Option<UnitContext>, runtime: Option<UnitRuntime>) -> ListOutput {
    ListOutput { context, runtime }
}

fn service_context(service_type: &str) -> UnitContext {
    UnitContext {
        service: Some(ServiceContext {
            service_type: Some(service_type.to_string()),
            restart_usec: None,
            watchdog_usec: None,
        }),
        exec_context: None,
        timer: None,
    }
}

#[test]
fn test_is_oneshot() {
    assert!(is_oneshot(&output(Some(service_context("oneshot")), None)));
    assert!(!is_oneshot(&output(Some(service_context("notify-reload")), None)));
    assert!(!is_oneshot(&output(None, None)));
}

#[test]
fn test_map_service_stats_from_a_populated_reply() {
    let stats = map_service_stats(
        &output(
            Some(UnitContext {
                service: Some(ServiceContext {
                    service_type: Some("notify-reload".to_string()),
                    restart_usec: Some(100_000),
                    watchdog_usec: None,
                }),
                exec_context: Some(ExecContext { timeout_clean_usec: Some(30_000_000) }),
                timer: None,
            }),
            Some(UnitRuntime {
                state_change_timestamp: Some(Timestamp {
                    realtime: Some(1_789_701_442_296_989),
                    monotonic: Some(3_774_344_633),
                }),
                active_enter_timestamp: Some(Timestamp {
                    realtime: Some(1_789_701_442_296_989),
                    monotonic: Some(3_774_344_633),
                }),
                inactive_exit_timestamp: Some(Timestamp {
                    realtime: Some(1_789_701_442_287_084),
                    monotonic: Some(3_774_334_729),
                }),
                active_exit_timestamp: Some(Timestamp {
                    realtime: Some(1_789_701_442_280_000),
                    monotonic: Some(3_774_327_645),
                }),
                cgroup: Some(CGroupRuntime {
                    path: Some("/system.slice/dbus-broker.service".to_string()),
                    cpu_usage_nsec: Some(86_690_000),
                    memory_current: Some(3_457_024),
                    memory_available: Some(7_619_899_392),
                    tasks_current: Some(2),
                    io_read_bytes: None,
                    io_read_operations: None,
                }),
                service: Some(ServiceRuntime {
                    main_pid: None,
                    control_pid: None,
                    status_errno: Some(0),
                    n_restarts: Some(0),
                }),
                timer: None,
            }),
        ),
        &CgroupStats {
            cpu_usage_nsec: Some(90_000_000),
            memory_current: Some(4_000_000),
            tasks_current: Some(3),
            processes: 3,
            ..Default::default()
        },
    );

    assert_eq!(stats.active_enter_timestamp, 1_789_701_442_296_989);
    assert_eq!(stats.cpuusage_nsec, 90_000_000);
    assert_eq!(stats.memory_current, 4_000_000);
    assert_eq!(stats.tasks_current, 3);
    assert_eq!(stats.processes, 3);
    assert_eq!(stats.memory_available, 7_619_899_392);
    assert_eq!(stats.restart_usec, 100_000);
    assert_eq!(stats.active_exit_timestamp, 1_789_701_442_280_000);
    assert_eq!(stats.timeout_clean_usec, 30_000_000);
    assert_eq!(stats.ioread_bytes, u64::MAX);
    assert_eq!(stats.ioread_operations, u64::MAX);
    assert_eq!(stats.watchdog_usec, 0);
}

fn timer_output() -> ListOutput {
    ListOutput {
        context: Some(UnitContext {
            service: None,
            exec_context: None,
            timer: Some(TimerContext {
                unit: Some("systemd-tmpfiles-clean.service".to_string()),
                accuracy_usec: Some(60_000_000),
                randomized_delay_usec: None,
                fixed_random_delay: Some(false),
                persistent: Some(false),
                remain_after_elapse: Some(true),
            }),
        }),
        runtime: Some(UnitRuntime {
            state_change_timestamp: None,
            active_enter_timestamp: None,
            inactive_exit_timestamp: None,
            active_exit_timestamp: None,
            cgroup: None,
            service: None,
            timer: Some(TimerRuntime {
                next_elapse_usec_realtime: Some(0),
                next_elapse_usec_monotonic: Some(91_091_400_515),
                last_trigger_usec: Some(Timestamp {
                    realtime: Some(1_789_702_359_355_506),
                    monotonic: Some(4_691_399_604),
                }),
            }),
        }),
    }
}

#[test]
fn test_map_timer_stats() {
    let triggered = output(
        None,
        Some(UnitRuntime {
            state_change_timestamp: Some(Timestamp {
                realtime: Some(1_789_702_359_400_000),
                monotonic: Some(4_691_444_098),
            }),
            active_enter_timestamp: None,
            inactive_exit_timestamp: None,
            active_exit_timestamp: None,
            cgroup: None,
            service: None,
            timer: None,
        }),
    );
    let stats = map_timer_stats(&timer_output(), Some(&triggered));

    assert_eq!(stats.accuracy_usec, 60_000_000);
    assert_eq!(stats.last_trigger_usec, 1_789_702_359_355_506);
    assert_eq!(stats.last_trigger_usec_monotonic, 4_691_399_604);
    assert_eq!(stats.next_elapse_usec_monotonic, 91_091_400_515);
    assert_eq!(stats.next_elapse_usec_realtime, 0);
    assert!(stats.remain_after_elapse);
    assert!(!stats.persistent);
    assert_eq!(stats.randomized_delay_usec, 0);
    assert_eq!(stats.service_unit_last_state_change_usec, 1_789_702_359_400_000);
    assert_eq!(stats.service_unit_last_state_change_usec_monotonic, 4_691_444_098);
}

#[test]
fn test_map_timer_stats_without_the_triggered_unit() {
    let stats = map_timer_stats(&timer_output(), None);
    assert_eq!(stats.service_unit_last_state_change_usec, 0);
    assert_eq!(stats.service_unit_last_state_change_usec_monotonic, 0);
    assert_eq!(stats.accuracy_usec, 60_000_000);
}

#[test]
fn test_timer_triggered_unit() {
    assert_eq!(timer_triggered_unit(&timer_output()), Some("systemd-tmpfiles-clean.service"));
    assert_eq!(timer_triggered_unit(&output(None, None)), None);
}

#[test]
fn test_map_service_stats_from_an_empty_reply() {
    let stats = map_service_stats(&output(None, None), &CgroupStats::default());
    assert_eq!(stats.ioread_bytes, u64::MAX);
    assert_eq!(stats.ioread_operations, u64::MAX);
    assert_eq!(stats.timeout_clean_usec, u64::MAX);
    assert_eq!(stats.cpuusage_nsec, u64::MAX);
    assert_eq!(stats.memory_current, u64::MAX);
    assert_eq!(stats.memory_available, u64::MAX);
    assert_eq!(stats.tasks_current, u64::MAX);
    assert_eq!(stats.watchdog_usec, 0);
    assert_eq!(stats.active_enter_timestamp, 0);
}

#[test]
fn test_map_service_stats_cgroupfs_only_no_reply() {
    let stats = map_service_stats(
        &output(None, None),
        &CgroupStats {
            cpu_usage_nsec: Some(1_000),
            memory_current: Some(2_000),
            memory_available: Some(3_000),
            tasks_current: Some(1),
            processes: 1,
            io_read_bytes: Some(0),
            io_read_operations: Some(0),
        },
    );
    assert_eq!(stats.cpuusage_nsec, 1_000);
    assert_eq!(stats.memory_current, 2_000);
    assert_eq!(stats.memory_available, 3_000);
    assert_eq!(stats.tasks_current, 1);
    assert_eq!(stats.processes, 1);
    assert_eq!(stats.ioread_bytes, 0);
    assert_eq!(stats.ioread_operations, 0);
}
