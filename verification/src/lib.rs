//! Statistics about systemd: parsing, aggregation and flattening of the
//! metrics that the collectors gather, with contracts checked by Verus.
use vstd::prelude::*;

pub mod boot;
pub mod cgroup;
pub mod collector;
pub mod config;
pub mod dbus_stats;
pub mod dbus_values;
pub mod ini;
pub mod json;
pub mod json_keys;
pub mod json_rebase;
pub mod machines;
pub mod names;
pub mod networkd;
pub mod pid1;
pub mod strmap;
pub mod system;
pub mod text;
pub mod timer;
pub mod unit_constants;
pub mod units;
pub mod varlink_boot;
pub mod varlink_fallback;
pub mod varlink_system;
pub mod varlink_unit;
pub mod varlink_units;
pub mod varlink_verify;
pub mod verify;
pub mod varlink;

verus! {

/// Which transport served a collector on the last run.
#[derive(Clone, Copy, Debug, PartialEq, Eq, Structural)]
pub enum CollectorTransport {
    Dbus,
    Varlink,
}

impl Default for CollectorTransport {
    fn default() -> (r: Self)
        ensures
            r == CollectorTransport::Dbus,
    {
        CollectorTransport::Dbus
    }
}

impl CollectorTransport {
    /// The gauge value: 1 when varlink served the collector, 0 for D-Bus
    /// (or networkd's state files).
    pub fn as_u64(self) -> (r: u64)
        ensures
            r == (match self {
                CollectorTransport::Dbus => 0u64,
                CollectorTransport::Varlink => 1u64,
            }),
    {
        match self {
            CollectorTransport::Dbus => 0,
            CollectorTransport::Varlink => 1,
        }
    }
}

/// The transport of each collector on the last run; `None` for a
/// collector that did not run.
#[derive(Clone, Copy, Debug, PartialEq, Eq, Structural)]
pub struct VarlinkUsage {
    pub version: Option<CollectorTransport>,
    pub system_state: Option<CollectorTransport>,
    pub units: Option<CollectorTransport>,
    pub networkd: Option<CollectorTransport>,
    pub machines: Option<CollectorTransport>,
    pub boot_blame: Option<CollectorTransport>,
    pub verify: Option<CollectorTransport>,
}

impl Default for VarlinkUsage {
    fn default() -> (r: Self)
        ensures
            r == (VarlinkUsage {
                version: None,
                system_state: None,
                units: None,
                networkd: None,
                machines: None,
                boot_blame: None,
                verify: None,
            }),
    {
        VarlinkUsage {
            version: None,
            system_state: None,
            units: None,
            networkd: None,
            machines: None,
            boot_blame: None,
            verify: None,
        }
    }
}


/// The stats of one machine (the host, or a container).
#[derive(Debug)]
pub struct MachineStats {
    pub networkd: networkd::NetworkdState,
    pub pid1: Option<pid1::Pid1Stats>,
    pub system_state: system::SystemdSystemState,
    pub units: units::SystemdUnitStats,
    pub version: system::SystemdVersion,
    pub dbus_stats: Option<dbus_stats::DBusStats>,
    pub verify_stats: Option<verify::VerifyStats>,
    pub varlink_usage: VarlinkUsage,
}

impl Default for MachineStats {
    fn default() -> (r: Self)
        ensures
            r.networkd.interfaces_state@.len() == 0,
            r.networkd.managed_interfaces == 0,
            r.pid1 is None,
            r.system_state == system::SystemdSystemState::unknown,
            units::counters_of(r.units) == units::zero_counters(),
            r.dbus_stats is None,
            r.verify_stats is None,
    {
        MachineStats {
            networkd: networkd::NetworkdState::default(),
            pid1: None,
            system_state: system::SystemdSystemState::default(),
            units: units::SystemdUnitStats::default(),
            version: system::SystemdVersion::default(),
            dbus_stats: None,
            verify_stats: None,
            varlink_usage: VarlinkUsage::default(),
        }
    }
}

} // verus!
