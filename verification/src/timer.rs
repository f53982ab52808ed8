//! Per-timer statistics.
use vstd::prelude::*;

verus! {

/// Per-timer unit metrics, as the `org.freedesktop.systemd1.Timer` D-Bus
/// interface and `io.systemd.Unit` report them.
#[derive(Clone, Copy, Debug, PartialEq, Eq, Structural)]
pub struct TimerStats {
    /// AccuracySec in microseconds.
    pub accuracy_usec: u64,
    /// Whether FixedRandomDelay= is set.
    pub fixed_random_delay: bool,
    /// Realtime timestamp (usec since epoch) when this timer last triggered.
    pub last_trigger_usec: u64,
    /// Monotonic timestamp (usec since boot) when this timer last triggered.
    pub last_trigger_usec_monotonic: u64,
    /// Monotonic timestamp (usec since boot) of the next elapse.
    pub next_elapse_usec_monotonic: u64,
    /// Realtime timestamp (usec since epoch) of the next elapse.
    pub next_elapse_usec_realtime: u64,
    /// Whether Persistent= is set.
    pub persistent: bool,
    /// RandomizedDelaySec in microseconds.
    pub randomized_delay_usec: u64,
    /// Whether RemainAfterElapse= is set.
    pub remain_after_elapse: bool,
    /// Realtime timestamp of the latest state change of the triggered unit.
    pub service_unit_last_state_change_usec: u64,
    /// Monotonic timestamp of the latest state change of the triggered unit.
    pub service_unit_last_state_change_usec_monotonic: u64,
}

impl Default for TimerStats {
    fn default() -> (r: Self)
        ensures
            r == (TimerStats {
                accuracy_usec: 0,
                fixed_random_delay: false,
                last_trigger_usec: 0,
                last_trigger_usec_monotonic: 0,
                next_elapse_usec_monotonic: 0,
                next_elapse_usec_realtime: 0,
                persistent: false,
                randomized_delay_usec: 0,
                remain_after_elapse: false,
                service_unit_last_state_change_usec: 0,
                service_unit_last_state_change_usec_monotonic: 0,
            }),
    {
        TimerStats {
            accuracy_usec: 0,
            fixed_random_delay: false,
            last_trigger_usec: 0,
            last_trigger_usec_monotonic: 0,
            next_elapse_usec_monotonic: 0,
            next_elapse_usec_realtime: 0,
            persistent: false,
            randomized_delay_usec: 0,
            remain_after_elapse: false,
            service_unit_last_state_change_usec: 0,
            service_unit_last_state_change_usec_monotonic: 0,
        }
    }
}

} // verus!
