use monitord::pid1::{get_pid_stats, Pid1Stats};

/// What procfs reports of a process, turned into its stats by the library.
fn read_pid_stats(pid: i32) -> Result<Pid1Stats, Box<dyn std::error::Error>> {
    let bytes_per_page = procfs::page_size();
    let ticks_per_second = procfs::ticks_per_second();
    let proc = procfs::process::Process::new(pid)?;
    let stat = proc.stat()?;
    let fd_count = proc.fd_count()?;
    let tasks = proc.tasks()?.flatten().count();
    assert!(ticks_per_second > 0);
    assert!(stat.rss.checked_mul(bytes_per_page).is_some());
    Ok(get_pid_stats(stat.stime, stat.utime, stat.rss, ticks_per_second, bytes_per_page, fd_count, tasks))
}

#[test]
pub fn test_get_stats() -> Result<(), Box<dyn std::error::Error>> {
    let pid1_stats = read_pid_stats(1)?;
    assert!(pid1_stats.tasks > 0);
    Ok(())
}

#[test]
fn cpu_times_round_down_to_seconds() {
    let s = get_pid_stats(250, 99, 3, 100, 4096, 12, 2);
    assert_eq!(
        s,
        Pid1Stats { cpu_time_kernel: 2, cpu_time_user: 0, memory_usage_bytes: 12_288, fd_count: 12, tasks: 2 }
    );
}
