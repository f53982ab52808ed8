//! Statistics of a machine's PID 1 (systemd) from procfs: CPU time, memory,
//! file descriptors and tasks.
use vstd::prelude::*;

verus! {

/// PID 1's resource use.
#[derive(Clone, Copy, Debug, PartialEq, Eq, Structural)]
pub struct Pid1Stats {
    /// Kernel CPU time in whole seconds.
    pub cpu_time_kernel: u64,
    /// User CPU time in whole seconds.
    pub cpu_time_user: u64,
    /// Resident memory in bytes.
    pub memory_usage_bytes: u64,
    pub fd_count: u64,
    pub tasks: u64,
}

impl Default for Pid1Stats {
    fn default() -> (r: Self)
        ensures
            r == (Pid1Stats { cpu_time_kernel: 0, cpu_time_user: 0, memory_usage_bytes: 0, fd_count: 0, tasks: 0 }),
    {
        Pid1Stats { cpu_time_kernel: 0, cpu_time_user: 0, memory_usage_bytes: 0, fd_count: 0, tasks: 0 }
    }
}

/// The stats from what procfs reports of the process: `stime` and `utime`
/// in clock ticks, `rss` in pages, with the system's ticks per second and
/// page size. CPU times are rounded down to whole seconds.
pub fn get_pid_stats(
    stime: u64,
    utime: u64,
    rss: u64,
    ticks_per_second: u64,
    bytes_per_page: u64,
    fd_count: usize,
    tasks: usize,
) -> (r: Pid1Stats)
    requires
        ticks_per_second > 0,
        rss * bytes_per_page <= u64::MAX,
    ensures
        r.cpu_time_kernel == stime / ticks_per_second,
        r.cpu_time_user == utime / ticks_per_second,
        r.memory_usage_bytes == rss * bytes_per_page,
        r.fd_count == fd_count,
        r.tasks == tasks,
{
    Pid1Stats {
        cpu_time_kernel: stime / ticks_per_second,
        cpu_time_user: utime / ticks_per_second,
        memory_usage_bytes: rss * bytes_per_page,
        fd_count: fd_count as u64,
        tasks: tasks as u64,
    }
}

} // verus!
