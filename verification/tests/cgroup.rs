use monitord::cgroup::{
    cgroup_dir, count_processes, fold_memory_available, memory_level, parse_cpu_stat, parse_io_stat,
    parse_memory_limit, parse_meminfo, parse_u64, service_cgroup_stats, CgroupFiles, MemoryLevel,
};

#[test]
fn test_parse_cpu_stat() {
    let contents = "usage_usec 8864\nuser_usec 1772\nsystem_usec 7091\n";
    assert_eq!(parse_cpu_stat(contents), Some(8_864_000));
    // Missing key is "no data", not zero.
    assert_eq!(parse_cpu_stat("user_usec 5\n"), None);
    assert_eq!(parse_cpu_stat(""), None);
    // Overflow saturates via checked_mul → None rather than wrapping.
    assert_eq!(parse_cpu_stat("usage_usec 18446744073709551615\n"), None);
}

#[test]
fn test_parse_u64() {
    // The kernel appends a trailing newline.
    assert_eq!(parse_u64("1368064\n"), Some(1_368_064));
    assert_eq!(parse_u64("garbage\n"), None);
    assert_eq!(parse_u64(""), None);
}

#[test]
fn test_parse_memory_limit() {
    assert_eq!(parse_memory_limit("1073741824\n"), Some(1_073_741_824));
    // "max" means unlimited: no constraint, not zero.
    assert_eq!(parse_memory_limit("max\n"), None);
    assert_eq!(parse_memory_limit("garbage\n"), None);
}

#[test]
fn test_parse_io_stat() {
    // Two devices, values summed — the shape systemd parses.
    let contents = "8:0 rbytes=2936832 wbytes=278528 rios=87 wios=68 dbytes=0 dios=0\n\
                    252:0 rbytes=337215488 wbytes=898760704 rios=6622 wios=105892 dbytes=0 dios=0\n";
    assert_eq!(parse_io_stat(contents), (340_152_320, 6_709));
    // Present-but-empty (controller enabled, no IO yet) sums to zero.
    assert_eq!(parse_io_stat(""), (0, 0));
    // Malformed tokens are skipped, not fatal.
    assert_eq!(parse_io_stat("8:0 rbytes=abc rios=7\n"), (0, 7));
}

#[test]
fn test_fold_memory_available_with_unit_limits() {
    let levels = vec![
        MemoryLevel { limit: Some(536_870_912), current: Some(1_368_064) },
        MemoryLevel { limit: None, current: Some(2_183_753_728) },
    ];
    let root = (12_271_919_104, 8_474_013_504);
    assert_eq!(
        fold_memory_available(&levels, root, Some(1_368_064)),
        Some(536_870_912 - 1_368_064)
    );
}

#[test]
fn test_fold_memory_available_no_limits_uses_host_available() {
    let levels = vec![
        MemoryLevel { limit: None, current: Some(4_227_072) },
        MemoryLevel { limit: None, current: Some(2_183_753_728) },
    ];
    let root = (12_271_919_104, 3_761_983_488);
    assert_eq!(fold_memory_available(&levels, root, Some(4_227_072)), Some(8_509_935_616));
}

#[test]
fn test_fold_memory_available_takes_minimum_over_slices() {
    let levels = vec![
        MemoryLevel { limit: Some(1_073_741_824), current: Some(1_000_000) },
        MemoryLevel { limit: Some(100_000_000), current: Some(90_000_000) },
    ];
    let root = (12_271_919_104, 3_761_983_488);
    assert_eq!(fold_memory_available(&levels, root, Some(1_000_000)), Some(10_000_000));
}

#[test]
fn test_fold_memory_available_saturates_rather_than_underflows() {
    let levels = vec![MemoryLevel { limit: Some(1_000), current: Some(2_000) }];
    let root = (12_271_919_104, 3_761_983_488);
    assert_eq!(fold_memory_available(&levels, root, Some(2_000)), Some(0));
}

#[test]
fn test_fold_memory_available_prefers_fresh_unit_current() {
    let levels = vec![MemoryLevel { limit: Some(536_870_912), current: Some(1_000_000) }];
    let root = (12_271_919_104, 3_761_983_488);
    assert_eq!(
        fold_memory_available(&levels, root, Some(1_368_064)),
        Some(536_870_912 - 1_368_064)
    );
    assert_eq!(fold_memory_available(&levels, root, None), Some(536_870_912 - 1_000_000));
}

#[test]
fn test_fold_memory_available_unreadable_current_constrains_in_full() {
    let levels = vec![MemoryLevel { limit: Some(100_000_000), current: None }];
    let root = (12_271_919_104, 3_761_983_488);
    assert_eq!(fold_memory_available(&levels, root, None), Some(100_000_000));
}

#[test]
fn service_stats_from_the_files_of_a_cgroup_tree() {
    // The unit's own level (MemoryMax=1G, MemoryHigh=512M) and a limitless
    // ancestor slice.
    let unit = memory_level(
        &Some("1073741824\n".to_string()),
        &Some("536870912\n".to_string()),
        &Some("1368064\n".to_string()),
    );
    assert_eq!(unit, MemoryLevel { limit: Some(536_870_912), current: Some(1_368_064) });
    let slice = memory_level(&Some("max\n".to_string()), &Some("max\n".to_string()), &Some("999999\n".to_string()));
    assert_eq!(slice, MemoryLevel { limit: None, current: Some(999_999) });
    // cgroup.procs of the unit and of a nested child, plus a main PID that
    // sits outside the cgroup.
    let processes = count_processes(&vec!["100\n101\n".to_string(), "102\n".to_string()], &vec![103]);
    assert_eq!(processes, 4);
    let files = CgroupFiles {
        cpu_stat: Some("usage_usec 8864\nuser_usec 1772\n".to_string()),
        memory_current: Some("1368064\n".to_string()),
        pids_current: Some("2\n".to_string()),
        io_stat: Some("8:0 rbytes=100 wbytes=0 rios=3 wios=0\n".to_string()),
        processes,
        levels: vec![unit, slice],
    };
    let host = parse_meminfo("MemTotal:       11984296 kB\nMemFree: 1 kB\nMemAvailable:    8310484 kB\n");
    assert_eq!(host, Some((12_271_919_104, 12_271_919_104 - 8_509_935_616)));
    let stats = service_cgroup_stats(&files, host);
    assert_eq!(stats.cpu_usage_nsec, Some(8_864_000));
    assert_eq!(stats.memory_current, Some(1_368_064));
    assert_eq!(stats.tasks_current, Some(2));
    assert_eq!(stats.io_read_bytes, Some(100));
    assert_eq!(stats.io_read_operations, Some(3));
    assert_eq!(stats.processes, 4);
    assert_eq!(stats.memory_available, Some(536_870_912 - 1_368_064));
}

#[test]
fn absent_files_give_no_numbers() {
    let files = CgroupFiles {
        cpu_stat: None,
        memory_current: None,
        pids_current: None,
        io_stat: None,
        processes: 0,
        levels: vec![],
    };
    let stats = service_cgroup_stats(&files, Some((1, 0)));
    assert_eq!(stats.cpu_usage_nsec, None);
    assert_eq!(stats.memory_current, None);
    assert_eq!(stats.memory_available, None);
    assert_eq!(stats.io_read_bytes, None);
}

#[test]
fn cgroup_dir_skips_empty_and_root_paths() {
    assert_eq!(cgroup_dir("/proc/1/root", ""), None);
    assert_eq!(cgroup_dir("", "/"), None);
    assert_eq!(
        cgroup_dir("/proc/7/root", "/system.slice/fake.service"),
        Some("/proc/7/root/sys/fs/cgroup/system.slice/fake.service".to_string())
    );
}

#[test]
fn meminfo_needs_both_numbers() {
    assert_eq!(parse_meminfo("MemTotal: 10 kB\n"), None);
    assert_eq!(parse_meminfo("MemTotal: 10 kB\nMemAvailable: 4 kB\n"), Some((10_240, 6_144)));
    // More available than total saturates the used bytes at zero.
    assert_eq!(parse_meminfo("MemAvailable: 40 kB\nMemTotal: 10 kB\n"), Some((10_240, 0)));
}
