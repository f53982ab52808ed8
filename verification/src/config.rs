//! The configuration: one struct per INI section, their defaults, and how an
//! INI file sets them.
use vstd::prelude::*;

use crate::ini::{
    bool_error_text, find_entries, getbool_spec, getuint_spec, ini_get_spec, key_set, IniData,
    IniEntries, IniMap,
};
use crate::names::NameSet;
use crate::text::{push_str, str_eq, string_of};

verus! {

/// Where the system bus listens by default.
pub const DEFAULT_DBUS_ADDRESS: &'static str = "unix:path=/run/dbus/system_bus_socket";

/// Where systemd-networkd writes its per-link state files.
pub const NETWORKD_STATE_FILES: &'static str = "/run/systemd/netif/links";

/// A configuration value that cannot be used.
#[derive(Clone, Debug, PartialEq, Eq)]
pub enum MonitordConfigError {
    InvalidValue { section: String, key: String, reason: String },
    MissingKey { section: String, key: String },
}

/// An error as `(section, key, reason)`; a missing key has no reason.
pub open spec fn config_error_view(e: MonitordConfigError) -> (Seq<char>, Seq<char>, Option<Seq<char>>) {
    match e {
        MonitordConfigError::InvalidValue { section, key, reason } => (section@, key@, Some(reason@)),
        MonitordConfigError::MissingKey { section, key } => (section@, key@, None),
    }
}

/// The text of an error.
pub open spec fn config_error_text(e: MonitordConfigError) -> Seq<char> {
    match e {
        MonitordConfigError::InvalidValue { section, key, reason } => "Invalid value for '"@ + key@
            + "' in '"@ + section@ + "': "@ + reason@,
        MonitordConfigError::MissingKey { section, key } => "Missing key '"@ + key@ + "' in '"@
            + section@ + "'"@,
    }
}

impl MonitordConfigError {
    /// The error's message.
    pub fn message(&self) -> (r: String)
        ensures
            r@ == config_error_text(*self),
    {
        let mut r = String::new();
        match self {
            MonitordConfigError::InvalidValue { section, key, reason } => {
                push_str(&mut r, "Invalid value for '");
                push_str(&mut r, key.as_str());
                push_str(&mut r, "' in '");
                push_str(&mut r, section.as_str());
                push_str(&mut r, "': ");
                push_str(&mut r, reason.as_str());
                assert(r@ =~= config_error_text(*self));
            },
            MonitordConfigError::MissingKey { section, key } => {
                push_str(&mut r, "Missing key '");
                push_str(&mut r, key.as_str());
                push_str(&mut r, "' in '");
                push_str(&mut r, section.as_str());
                push_str(&mut r, "'");
                assert(r@ =~= config_error_text(*self));
            },
        }
        r
    }
}

/// How the stats are printed.
#[derive(Clone, Copy, Debug, PartialEq, Eq, Structural)]
pub enum MonitordOutputFormat {
    Json,
    JsonFlat,
    JsonPretty,
}

impl Default for MonitordOutputFormat {
    fn default() -> (r: Self)
        ensures
            r == MonitordOutputFormat::Json,
    {
        MonitordOutputFormat::Json
    }
}

/// The output format that `s` names: each format has three spellings.
pub open spec fn output_format_of_name(s: Seq<char>) -> Option<MonitordOutputFormat> {
    if s == "json"@ || s == "JSON"@ || s == "Json"@ {
        Some(MonitordOutputFormat::Json)
    } else if s == "json-flat"@ || s == "json_flat"@ || s == "jsonflat"@ {
        Some(MonitordOutputFormat::JsonFlat)
    } else if s == "json-pretty"@ || s == "json_pretty"@ || s == "jsonpretty"@ {
        Some(MonitordOutputFormat::JsonPretty)
    } else {
        None
    }
}

/// The reason given for a name that is no output format.
pub open spec fn unknown_format_text() -> Seq<char> {
    "Matching variant not found"@
}

impl MonitordOutputFormat {
    /// The format named `s`.
    pub fn from_name(s: &str) -> (r: Option<Self>)
        ensures
            r == output_format_of_name(s@),
    {
        if str_eq(s, "json") || str_eq(s, "JSON") || str_eq(s, "Json") {
            Some(MonitordOutputFormat::Json)
        } else if str_eq(s, "json-flat") || str_eq(s, "json_flat") || str_eq(s, "jsonflat") {
            Some(MonitordOutputFormat::JsonFlat)
        } else if str_eq(s, "json-pretty") || str_eq(s, "json_pretty") || str_eq(s, "jsonpretty") {
            Some(MonitordOutputFormat::JsonPretty)
        } else {
            None
        }
    }

    /// The number of the format.
    pub fn as_u8(self) -> (r: u8)
        ensures
            r == (match self {
                MonitordOutputFormat::Json => 0u8,
                MonitordOutputFormat::JsonFlat => 1u8,
                MonitordOutputFormat::JsonPretty => 2u8,
            }),
    {
        match self {
            MonitordOutputFormat::Json => 0,
            MonitordOutputFormat::JsonFlat => 1,
            MonitordOutputFormat::JsonPretty => 2,
        }
    }
}

/// `[monitord]`
#[derive(Clone, Debug, PartialEq, Eq)]
pub struct MonitordConfig {
    pub dbus_address: String,
    pub daemon: bool,
    pub daemon_stats_refresh_secs: u64,
    pub key_prefix: String,
    pub output_format: MonitordOutputFormat,
    pub dbus_timeout: u64,
}

impl Default for MonitordConfig {
    fn default() -> (r: Self)
        ensures
            r.dbus_address@ == DEFAULT_DBUS_ADDRESS@,
            !r.daemon,
            r.daemon_stats_refresh_secs == 30,
            r.key_prefix@ == Seq::<char>::empty(),
            r.output_format == MonitordOutputFormat::Json,
            r.dbus_timeout == 30,
    {
        MonitordConfig {
            dbus_address: string_of(DEFAULT_DBUS_ADDRESS),
            daemon: false,
            daemon_stats_refresh_secs: 30,
            key_prefix: String::new(),
            output_format: MonitordOutputFormat::Json,
            dbus_timeout: 30,
        }
    }
}

/// `[networkd]`
#[derive(Clone, Debug, PartialEq, Eq)]
pub struct NetworkdConfig {
    pub enabled: bool,
    /// Use varlink for this collector when the global switch is on.
    pub varlink: bool,
    pub link_state_dir: String,
}

impl Default for NetworkdConfig {
    fn default() -> (r: Self)
        ensures
            !r.enabled,
            r.varlink,
            r.link_state_dir@ == NETWORKD_STATE_FILES@,
    {
        NetworkdConfig { enabled: false, varlink: true, link_state_dir: string_of(NETWORKD_STATE_FILES) }
    }
}

/// `[pid1]`
#[derive(Clone, Copy, Debug, PartialEq, Eq, Structural)]
pub struct Pid1Config {
    pub enabled: bool,
}

impl Default for Pid1Config {
    fn default() -> (r: Self)
        ensures
            r.enabled,
    {
        Pid1Config { enabled: true }
    }
}

/// `[system-state]`
#[derive(Clone, Copy, Debug, PartialEq, Eq, Structural)]
pub struct SystemStateConfig {
    pub enabled: bool,
    /// Use varlink for this collector (and the version lookup that shares its
    /// call) when the global switch is on.
    pub varlink: bool,
}

impl Default for SystemStateConfig {
    fn default() -> (r: Self)
        ensures
            r.enabled,
            r.varlink,
    {
        SystemStateConfig { enabled: true, varlink: true }
    }
}

/// `[timers]`
#[derive(Clone, Debug, PartialEq, Eq)]
pub struct TimersConfig {
    pub enabled: bool,
    pub allowlist: NameSet,
    pub blocklist: NameSet,
}

impl Default for TimersConfig {
    fn default() -> (r: Self)
        ensures
            r.enabled,
            r.allowlist@ == Set::<Seq<char>>::empty(),
            r.blocklist@ == Set::<Seq<char>>::empty(),
    {
        TimersConfig { enabled: true, allowlist: NameSet::new(), blocklist: NameSet::new() }
    }
}

/// `[units]`
#[derive(Clone, Debug, PartialEq, Eq)]
pub struct UnitsConfig {
    pub enabled: bool,
    /// Use varlink for this collector when the global switch is on.
    pub varlink: bool,
    pub state_stats: bool,
    pub state_stats_allowlist: NameSet,
    pub state_stats_blocklist: NameSet,
    pub state_stats_time_in_state: bool,
    pub ignore_inactive_oneshot_services: bool,
    pub unit_files: bool,
    /// How many units have their D-Bus work run at once.
    pub per_unit_concurrency: u64,
    /// How many of the slowest units to record; 0 records none.
    pub slowest_units_count: u64,
}

impl Default for UnitsConfig {
    fn default() -> (r: Self)
        ensures
            r.enabled,
            r.varlink,
            !r.state_stats,
            r.state_stats_allowlist@ == Set::<Seq<char>>::empty(),
            r.state_stats_blocklist@ == Set::<Seq<char>>::empty(),
            r.state_stats_time_in_state,
            r.ignore_inactive_oneshot_services,
            r.unit_files,
            r.per_unit_concurrency == 8,
            r.slowest_units_count == 5,
    {
        UnitsConfig {
            enabled: true,
            varlink: true,
            state_stats: false,
            state_stats_allowlist: NameSet::new(),
            state_stats_blocklist: NameSet::new(),
            state_stats_time_in_state: true,
            ignore_inactive_oneshot_services: true,
            unit_files: true,
            per_unit_concurrency: 8,
            slowest_units_count: 5,
        }
    }
}

/// `[machines]`
#[derive(Clone, Debug, PartialEq, Eq)]
pub struct MachinesConfig {
    pub enabled: bool,
    /// Use varlink inside containers when the global switch is on.
    pub varlink: bool,
    pub allowlist: NameSet,
    pub blocklist: NameSet,
}

impl Default for MachinesConfig {
    fn default() -> (r: Self)
        ensures
            r.enabled,
            r.varlink,
            r.allowlist@ == Set::<Seq<char>>::empty(),
            r.blocklist@ == Set::<Seq<char>>::empty(),
    {
        MachinesConfig {
            enabled: true,
            varlink: true,
            allowlist: NameSet::new(),
            blocklist: NameSet::new(),
        }
    }
}

/// `[dbus]`
#[derive(Clone, Debug, PartialEq, Eq)]
pub struct DBusStatsConfig {
    pub enabled: bool,
    pub stale_fd_stats: bool,
    pub user_stats: bool,
    pub user_allowlist: NameSet,
    pub user_blocklist: NameSet,
    pub peer_stats: bool,
    pub peer_well_known_names_only: bool,
    pub peer_allowlist: NameSet,
    pub peer_blocklist: NameSet,
    /// How many owner lookups of well-known names run at once.
    pub peer_name_concurrency: u64,
    pub cgroup_stats: bool,
    pub cgroup_allowlist: NameSet,
    pub cgroup_blocklist: NameSet,
}

impl Default for DBusStatsConfig {
    fn default() -> (r: Self)
        ensures
            r.enabled,
            r.stale_fd_stats,
            !r.user_stats,
            r.user_allowlist@ == Set::<Seq<char>>::empty(),
            r.user_blocklist@ == Set::<Seq<char>>::empty(),
            !r.peer_stats,
            !r.peer_well_known_names_only,
            r.peer_allowlist@ == Set::<Seq<char>>::empty(),
            r.peer_blocklist@ == Set::<Seq<char>>::empty(),
            r.peer_name_concurrency == 8,
            !r.cgroup_stats,
            r.cgroup_allowlist@ == Set::<Seq<char>>::empty(),
            r.cgroup_blocklist@ == Set::<Seq<char>>::empty(),
    {
        DBusStatsConfig {
            enabled: true,
            stale_fd_stats: true,
            user_stats: false,
            user_allowlist: NameSet::new(),
            user_blocklist: NameSet::new(),
            peer_stats: false,
            peer_well_known_names_only: false,
            peer_allowlist: NameSet::new(),
            peer_blocklist: NameSet::new(),
            peer_name_concurrency: 8,
            cgroup_stats: false,
            cgroup_allowlist: NameSet::new(),
            cgroup_blocklist: NameSet::new(),
        }
    }
}

/// `[boot]`
#[derive(Clone, Debug, PartialEq, Eq)]
pub struct BootBlameConfig {
    pub enabled: bool,
    /// Use varlink for this collector when the global switch is on.
    pub varlink: bool,
    pub cache_enabled: bool,
    pub cache_dir: String,
    pub num_slowest_units: u64,
    pub allowlist: NameSet,
    pub blocklist: NameSet,
}

impl Default for BootBlameConfig {
    fn default() -> (r: Self)
        ensures
            !r.enabled,
            r.varlink,
            r.cache_enabled,
            r.cache_dir@ == "/run/monitord"@,
            r.num_slowest_units == 5,
            r.allowlist@ == Set::<Seq<char>>::empty(),
            r.blocklist@ == Set::<Seq<char>>::empty(),
    {
        BootBlameConfig {
            enabled: false,
            varlink: true,
            cache_enabled: true,
            cache_dir: string_of("/run/monitord"),
            num_slowest_units: 5,
            allowlist: NameSet::new(),
            blocklist: NameSet::new(),
        }
    }
}

/// `[verify]`
#[derive(Clone, Debug, PartialEq, Eq)]
pub struct VerifyConfig {
    pub enabled: bool,
    pub allowlist: NameSet,
    pub blocklist: NameSet,
}

impl Default for VerifyConfig {
    fn default() -> (r: Self)
        ensures
            !r.enabled,
            r.allowlist@ == Set::<Seq<char>>::empty(),
            r.blocklist@ == Set::<Seq<char>>::empty(),
    {
        VerifyConfig { enabled: false, allowlist: NameSet::new(), blocklist: NameSet::new() }
    }
}

/// `[varlink]`
#[derive(Clone, Copy, Debug, PartialEq, Eq, Structural)]
pub struct VarlinkConfig {
    /// The global varlink switch; a collector uses varlink only when this and
    /// its own section's toggle are both on.
    pub enabled: bool,
}

impl Default for VarlinkConfig {
    fn default() -> (r: Self)
        ensures
            !r.enabled,
    {
        VarlinkConfig { enabled: false }
    }
}

/// The whole configuration: one field per INI section.
#[derive(Clone, Debug, PartialEq, Eq)]
pub struct Config {
    pub machines: MachinesConfig,
    pub monitord: MonitordConfig,
    pub networkd: NetworkdConfig,
    pub pid1: Pid1Config,
    pub services: NameSet,
    pub system_state: SystemStateConfig,
    pub timers: TimersConfig,
    pub units: UnitsConfig,
    pub dbus_stats: DBusStatsConfig,
    pub boot_blame: BootBlameConfig,
    pub verify: VerifyConfig,
    pub varlink: VarlinkConfig,
}

/// The defaults of every section.
pub open spec fn is_default_config(c: Config) -> bool {
    &&& c.monitord.dbus_address@ == DEFAULT_DBUS_ADDRESS@
    &&& !c.monitord.daemon
    &&& c.monitord.daemon_stats_refresh_secs == 30
    &&& c.monitord.key_prefix@ == Seq::<char>::empty()
    &&& c.monitord.output_format == MonitordOutputFormat::Json
    &&& c.monitord.dbus_timeout == 30
    &&& !c.networkd.enabled
    &&& c.networkd.varlink
    &&& c.networkd.link_state_dir@ == NETWORKD_STATE_FILES@
    &&& c.pid1.enabled
    &&& c.services@ == Set::<Seq<char>>::empty()
    &&& c.system_state.enabled
    &&& c.system_state.varlink
    &&& c.timers.enabled
    &&& c.timers.allowlist@ == Set::<Seq<char>>::empty()
    &&& c.timers.blocklist@ == Set::<Seq<char>>::empty()
    &&& c.units.enabled
    &&& c.units.varlink
    &&& !c.units.state_stats
    &&& c.units.state_stats_allowlist@ == Set::<Seq<char>>::empty()
    &&& c.units.state_stats_blocklist@ == Set::<Seq<char>>::empty()
    &&& c.units.state_stats_time_in_state
    &&& c.units.ignore_inactive_oneshot_services
    &&& c.units.unit_files
    &&& c.units.per_unit_concurrency == 8
    &&& c.units.slowest_units_count == 5
    &&& c.machines.enabled
    &&& c.machines.varlink
    &&& c.machines.allowlist@ == Set::<Seq<char>>::empty()
    &&& c.machines.blocklist@ == Set::<Seq<char>>::empty()
    &&& c.dbus_stats.enabled
    &&& c.dbus_stats.stale_fd_stats
    &&& !c.dbus_stats.user_stats
    &&& c.dbus_stats.user_allowlist@ == Set::<Seq<char>>::empty()
    &&& c.dbus_stats.user_blocklist@ == Set::<Seq<char>>::empty()
    &&& !c.dbus_stats.peer_stats
    &&& !c.dbus_stats.peer_well_known_names_only
    &&& c.dbus_stats.peer_allowlist@ == Set::<Seq<char>>::empty()
    &&& c.dbus_stats.peer_blocklist@ == Set::<Seq<char>>::empty()
    &&& c.dbus_stats.peer_name_concurrency == 8
    &&& !c.dbus_stats.cgroup_stats
    &&& c.dbus_stats.cgroup_allowlist@ == Set::<Seq<char>>::empty()
    &&& c.dbus_stats.cgroup_blocklist@ == Set::<Seq<char>>::empty()
    &&& !c.boot_blame.enabled
    &&& c.boot_blame.varlink
    &&& c.boot_blame.cache_enabled
    &&& c.boot_blame.cache_dir@ == "/run/monitord"@
    &&& c.boot_blame.num_slowest_units == 5
    &&& c.boot_blame.allowlist@ == Set::<Seq<char>>::empty()
    &&& c.boot_blame.blocklist@ == Set::<Seq<char>>::empty()
    &&& !c.verify.enabled
    &&& c.verify.allowlist@ == Set::<Seq<char>>::empty()
    &&& c.verify.blocklist@ == Set::<Seq<char>>::empty()
    &&& !c.varlink.enabled
}

impl Default for Config {
    fn default() -> (r: Self)
        ensures
            is_default_config(r),
    {
        Config {
            machines: MachinesConfig::default(),
            monitord: MonitordConfig::default(),
            networkd: NetworkdConfig::default(),
            pid1: Pid1Config::default(),
            services: NameSet::new(),
            system_state: SystemStateConfig::default(),
            timers: TimersConfig::default(),
            units: UnitsConfig::default(),
            dbus_stats: DBusStatsConfig::default(),
            boot_blame: BootBlameConfig::default(),
            verify: VerifyConfig::default(),
            varlink: VarlinkConfig::default(),
        }
    }
}

/// Every toggle in `sections` is on.
pub open spec fn all_on(sections: Seq<bool>) -> bool {
    forall|i: int| 0 <= i < sections.len() ==> #[trigger] sections[i]
}

impl Config {
    /// Whether collectors gated on the given section toggles may use
    /// varlink: the global switch and every toggle passed must all be on.
    pub fn use_varlink(&self, sections: &[bool]) -> (r: bool)
        ensures
            r == (self.varlink.enabled && all_on(sections@)),
    {
        if !self.varlink.enabled {
            return false;
        }
        let mut i: usize = 0;
        while i < sections.len()
            invariant
                i <= sections.len(),
                forall|j: int| 0 <= j < i ==> #[trigger] sections@[j],
            decreases sections.len() - i,
        {
            if !sections[i] {
                return false;
            }
            i = i + 1;
        }
        true
    }
}


/// A configuration error as `(section, key, reason)`.
pub type ConfigFault = (Seq<char>, Seq<char>, Option<Seq<char>>);

/// The error of a boolean key whose value is neither `true` nor `false`.
pub open spec fn bool_fault(m: IniMap, section: Seq<char>, key: Seq<char>) -> Option<ConfigFault> {
    if getbool_spec(m, section, key) is Err {
        Some((section, key, Some(bool_error_text())))
    } else {
        None
    }
}

/// The first of two possible errors.
pub open spec fn first_fault(a: Option<ConfigFault>, b: Option<ConfigFault>) -> Option<ConfigFault> {
    if a is Some {
        a
    } else {
        b
    }
}

/// A boolean key's value, `d` when the key has no value.
pub open spec fn flag(m: IniMap, section: Seq<char>, key: Seq<char>, d: bool) -> bool {
    match getbool_spec(m, section, key) {
        Ok(Some(b)) => b,
        _ => d,
    }
}

/// An unsigned key's value, `d` when the key has none that reads as a `u64`.
pub open spec fn number(m: IniMap, section: Seq<char>, key: Seq<char>, d: u64) -> u64 {
    match getuint_spec(m, section, key) {
        Some(n) => n,
        None => d,
    }
}

/// A text key's value, `d` when the key has no value.
pub open spec fn text_or(m: IniMap, section: Seq<char>, key: Seq<char>, d: Seq<char>) -> Seq<char> {
    match ini_get_spec(m, section, key) {
        Some(v) => v,
        None => d,
    }
}

/// The error of the `[monitord]` section, if any: an invalid `daemon`, then
/// a missing `output_format`, then one that names no format.
pub open spec fn monitord_fault(m: IniMap) -> Option<ConfigFault> {
    if bool_fault(m, "monitord"@, "daemon"@) is Some {
        bool_fault(m, "monitord"@, "daemon"@)
    } else {
        match ini_get_spec(m, "monitord"@, "output_format"@) {
            None => Some(("monitord"@, "output_format"@, None)),
            Some(f) => if output_format_of_name(f) is None {
                Some(("monitord"@, "output_format"@, Some(unknown_format_text())))
            } else {
                None
            },
        }
    }
}

pub open spec fn monitord_from(c: MonitordConfig, m: IniMap) -> bool {
    &&& c.dbus_address@ == text_or(m, "monitord"@, "dbus_address"@, DEFAULT_DBUS_ADDRESS@)
    &&& c.dbus_timeout == number(m, "monitord"@, "dbus_timeout"@, 30)
    &&& c.daemon == flag(m, "monitord"@, "daemon"@, false)
    &&& c.daemon_stats_refresh_secs == number(m, "monitord"@, "daemon_stats_refresh_secs"@, 30)
    &&& c.key_prefix@ == text_or(m, "monitord"@, "key_prefix"@, Seq::<char>::empty())
    &&& Some(c.output_format) == output_format_of_name(
        text_or(m, "monitord"@, "output_format"@, Seq::<char>::empty()),
    )
}

pub open spec fn networkd_fault(m: IniMap) -> Option<ConfigFault> {
    first_fault(bool_fault(m, "networkd"@, "enabled"@), bool_fault(m, "networkd"@, "varlink"@))
}

pub open spec fn networkd_from(c: NetworkdConfig, m: IniMap) -> bool {
    &&& c.enabled == flag(m, "networkd"@, "enabled"@, false)
    &&& c.varlink == flag(m, "networkd"@, "varlink"@, true)
    &&& c.link_state_dir@ == text_or(m, "networkd"@, "link_state_dir"@, NETWORKD_STATE_FILES@)
}

pub open spec fn system_state_fault(m: IniMap) -> Option<ConfigFault> {
    first_fault(
        bool_fault(m, "system-state"@, "enabled"@),
        bool_fault(m, "system-state"@, "varlink"@),
    )
}

pub open spec fn units_fault(m: IniMap) -> Option<ConfigFault> {
    first_fault(
        bool_fault(m, "units"@, "enabled"@),
        first_fault(
            bool_fault(m, "units"@, "varlink"@),
            first_fault(
                bool_fault(m, "units"@, "state_stats"@),
                first_fault(
                    bool_fault(m, "units"@, "state_stats_time_in_state"@),
                    first_fault(
                        bool_fault(m, "units"@, "ignore_inactive_oneshot_services"@),
                        bool_fault(m, "units"@, "unit_files"@),
                    ),
                ),
            ),
        ),
    )
}

pub open spec fn units_from(c: UnitsConfig, m: IniMap) -> bool {
    &&& c.enabled == flag(m, "units"@, "enabled"@, false)
    &&& c.varlink == flag(m, "units"@, "varlink"@, true)
    &&& c.state_stats == flag(m, "units"@, "state_stats"@, false)
    &&& c.state_stats_allowlist@ == key_set(m, "units.state_stats.allowlist"@)
    &&& c.state_stats_blocklist@ == key_set(m, "units.state_stats.blocklist"@)
    &&& c.state_stats_time_in_state == flag(m, "units"@, "state_stats_time_in_state"@, false)
    &&& c.ignore_inactive_oneshot_services == flag(
        m,
        "units"@,
        "ignore_inactive_oneshot_services"@,
        true,
    )
    &&& c.unit_files == flag(m, "units"@, "unit_files"@, true)
    &&& c.per_unit_concurrency == number(m, "units"@, "per_unit_concurrency"@, 8)
    &&& c.slowest_units_count == number(m, "units"@, "slowest_units_count"@, 5)
}

pub open spec fn machines_fault(m: IniMap) -> Option<ConfigFault> {
    first_fault(bool_fault(m, "machines"@, "enabled"@), bool_fault(m, "machines"@, "varlink"@))
}

pub open spec fn dbus_fault(m: IniMap) -> Option<ConfigFault> {
    first_fault(
        bool_fault(m, "dbus"@, "enabled"@),
        first_fault(
            bool_fault(m, "dbus"@, "stale_fd_stats"@),
            first_fault(
                bool_fault(m, "dbus"@, "user_stats"@),
                first_fault(
                    bool_fault(m, "dbus"@, "peer_stats"@),
                    first_fault(
                        bool_fault(m, "dbus"@, "peer_well_known_names_only"@),
                        bool_fault(m, "dbus"@, "cgroup_stats"@),
                    ),
                ),
            ),
        ),
    )
}

pub open spec fn dbus_from(c: DBusStatsConfig, m: IniMap) -> bool {
    &&& c.enabled == flag(m, "dbus"@, "enabled"@, false)
    &&& c.stale_fd_stats == flag(m, "dbus"@, "stale_fd_stats"@, true)
    &&& c.user_stats == flag(m, "dbus"@, "user_stats"@, false)
    &&& c.user_allowlist@ == key_set(m, "dbus.user.allowlist"@)
    &&& c.user_blocklist@ == key_set(m, "dbus.user.blocklist"@)
    &&& c.peer_stats == flag(m, "dbus"@, "peer_stats"@, false)
    &&& c.peer_well_known_names_only == flag(m, "dbus"@, "peer_well_known_names_only"@, false)
    &&& c.peer_allowlist@ == key_set(m, "dbus.peer.allowlist"@)
    &&& c.peer_blocklist@ == key_set(m, "dbus.peer.blocklist"@)
    &&& c.peer_name_concurrency == number(m, "dbus"@, "peer_name_concurrency"@, 8)
    &&& c.cgroup_stats == flag(m, "dbus"@, "cgroup_stats"@, false)
    &&& c.cgroup_allowlist@ == key_set(m, "dbus.cgroup.allowlist"@)
    &&& c.cgroup_blocklist@ == key_set(m, "dbus.cgroup.blocklist"@)
}

pub open spec fn boot_fault(m: IniMap) -> Option<ConfigFault> {
    first_fault(
        bool_fault(m, "boot"@, "enabled"@),
        first_fault(bool_fault(m, "boot"@, "varlink"@), bool_fault(m, "boot"@, "cache_enabled"@)),
    )
}

pub open spec fn boot_from(c: BootBlameConfig, m: IniMap) -> bool {
    &&& c.enabled == flag(m, "boot"@, "enabled"@, false)
    &&& c.varlink == flag(m, "boot"@, "varlink"@, true)
    &&& c.cache_enabled == flag(m, "boot"@, "cache_enabled"@, true)
    &&& c.cache_dir@ == text_or(m, "boot"@, "cache_dir"@, "/run/monitord"@)
    &&& c.num_slowest_units == number(m, "boot"@, "num_slowest_units"@, 5)
    &&& c.allowlist@ == key_set(m, "boot.allowlist"@)
    &&& c.blocklist@ == key_set(m, "boot.blocklist"@)
}

/// The error that reading `m` gives, if any: sections are read in the order
/// monitord, networkd, pid1, system-state, timers, units, machines, dbus,
/// boot, verify, varlink, and the first bad value stops the reading.
pub open spec fn config_fault(m: IniMap) -> Option<ConfigFault> {
    first_fault(
        monitord_fault(m),
        first_fault(
            networkd_fault(m),
            first_fault(
                bool_fault(m, "pid1"@, "enabled"@),
                first_fault(
                    system_state_fault(m),
                    first_fault(
                        bool_fault(m, "timers"@, "enabled"@),
                        first_fault(
                            units_fault(m),
                            first_fault(
                                machines_fault(m),
                                first_fault(
                                    dbus_fault(m),
                                    first_fault(
                                        boot_fault(m),
                                        first_fault(
                                            bool_fault(m, "verify"@, "enabled"@),
                                            bool_fault(m, "varlink"@, "enabled"@),
                                        ),
                                    ),
                                ),
                            ),
                        ),
                    ),
                ),
            ),
        ),
    )
}

/// The configuration that an INI map without errors sets: each key read
/// sets its field, every other field keeps its default, and a required
/// boolean without a value reads as `false`.
pub open spec fn config_from(c: Config, m: IniMap) -> bool {
    &&& monitord_from(c.monitord, m)
    &&& networkd_from(c.networkd, m)
    &&& c.pid1.enabled == flag(m, "pid1"@, "enabled"@, false)
    &&& c.services@ == key_set(m, "services"@)
    &&& c.system_state.enabled == flag(m, "system-state"@, "enabled"@, false)
    &&& c.system_state.varlink == flag(m, "system-state"@, "varlink"@, true)
    &&& c.timers.enabled == flag(m, "timers"@, "enabled"@, false)
    &&& c.timers.allowlist@ == key_set(m, "timers.allowlist"@)
    &&& c.timers.blocklist@ == key_set(m, "timers.blocklist"@)
    &&& units_from(c.units, m)
    &&& c.machines.enabled == flag(m, "machines"@, "enabled"@, false)
    &&& c.machines.varlink == flag(m, "machines"@, "varlink"@, true)
    &&& c.machines.allowlist@ == key_set(m, "machines.allowlist"@)
    &&& c.machines.blocklist@ == key_set(m, "machines.blocklist"@)
    &&& dbus_from(c.dbus_stats, m)
    &&& boot_from(c.boot_blame, m)
    &&& c.verify.enabled == flag(m, "verify"@, "enabled"@, false)
    &&& c.verify.allowlist@ == key_set(m, "verify.allowlist"@)
    &&& c.verify.blocklist@ == key_set(m, "verify.blocklist"@)
    &&& c.varlink.enabled == flag(m, "varlink"@, "enabled"@, false)
}

/// A required boolean option: no value reads as `false` (systemd-style
/// "off unless said"), a value that is no boolean is an error.
fn read_config_bool(ini: &IniData, section: &str, key: &str) -> (r: Result<bool, MonitordConfigError>)
    ensures
        match r {
            Ok(b) => bool_fault(ini@, section@, key@) is None && b == flag(ini@, section@, key@, false),
            Err(e) => bool_fault(ini@, section@, key@) == Some(config_error_view(e)),
        },
{
    match ini.getbool(section, key) {
        Ok(Some(b)) => Ok(b),
        Ok(None) => Ok(false),
        Err(reason) => Err(
            MonitordConfigError::InvalidValue {
                section: string_of(section),
                key: string_of(key),
                reason,
            },
        ),
    }
}

/// An optional boolean option: no value leaves the field's default.
fn read_config_optional_bool(ini: &IniData, section: &str, key: &str) -> (r: Result<
    Option<bool>,
    MonitordConfigError,
>)
    ensures
        match r {
            Ok(o) => bool_fault(ini@, section@, key@) is None && getbool_spec(ini@, section@, key@)
                == Ok::<Option<bool>, ()>(o),
            Err(e) => bool_fault(ini@, section@, key@) == Some(config_error_view(e)),
        },
{
    match ini.getbool(section, key) {
        Ok(o) => Ok(o),
        Err(reason) => Err(
            MonitordConfigError::InvalidValue {
                section: string_of(section),
                key: string_of(key),
                reason,
            },
        ),
    }
}

fn read_monitord(ini: &IniData) -> (r: Result<MonitordConfig, MonitordConfigError>)
    ensures
        match r {
            Ok(c) => monitord_fault(ini@) is None && monitord_from(c, ini@),
            Err(e) => monitord_fault(ini@) == Some(config_error_view(e)),
        },
{
    let mut c = MonitordConfig::default();
    match ini.get("monitord", "dbus_address") {
        Some(v) => c.dbus_address = v,
        None => {},
    }
    match ini.getuint("monitord", "dbus_timeout") {
        Some(v) => c.dbus_timeout = v,
        None => {},
    }
    c.daemon = read_config_bool(ini, "monitord", "daemon")?;
    match ini.getuint("monitord", "daemon_stats_refresh_secs") {
        Some(v) => c.daemon_stats_refresh_secs = v,
        None => {},
    }
    match ini.get("monitord", "key_prefix") {
        Some(v) => c.key_prefix = v,
        None => {},
    }
    let format = match ini.get("monitord", "output_format") {
        Some(f) => f,
        None => {
            return Err(
                MonitordConfigError::MissingKey {
                    section: string_of("monitord"),
                    key: string_of("output_format"),
                },
            );
        },
    };
    match MonitordOutputFormat::from_name(format.as_str()) {
        Some(f) => c.output_format = f,
        None => {
            return Err(
                MonitordConfigError::InvalidValue {
                    section: string_of("monitord"),
                    key: string_of("output_format"),
                    reason: string_of("Matching variant not found"),
                },
            );
        },
    }
    Ok(c)
}


fn read_networkd(ini: &IniData) -> (r: Result<NetworkdConfig, MonitordConfigError>)
    ensures
        match r {
            Ok(c) => networkd_fault(ini@) is None && networkd_from(c, ini@),
            Err(e) => networkd_fault(ini@) == Some(config_error_view(e)),
        },
{
    let mut c = NetworkdConfig::default();
    c.enabled = read_config_bool(ini, "networkd", "enabled")?;
    match read_config_optional_bool(ini, "networkd", "varlink")? {
        Some(v) => c.varlink = v,
        None => {},
    }
    match ini.get("networkd", "link_state_dir") {
        Some(v) => c.link_state_dir = v,
        None => {},
    }
    Ok(c)
}

fn read_units(ini: &IniData) -> (r: Result<UnitsConfig, MonitordConfigError>)
    ensures
        match r {
            Ok(c) => units_fault(ini@) is None && units_from(c, ini@),
            Err(e) => units_fault(ini@) == Some(config_error_view(e)),
        },
{
    let mut c = UnitsConfig::default();
    c.enabled = read_config_bool(ini, "units", "enabled")?;
    match read_config_optional_bool(ini, "units", "varlink")? {
        Some(v) => c.varlink = v,
        None => {},
    }
    c.state_stats = read_config_bool(ini, "units", "state_stats")?;
    c.state_stats_allowlist = ini.keys("units.state_stats.allowlist");
    c.state_stats_blocklist = ini.keys("units.state_stats.blocklist");
    c.state_stats_time_in_state = read_config_bool(ini, "units", "state_stats_time_in_state")?;
    match read_config_optional_bool(ini, "units", "ignore_inactive_oneshot_services")? {
        Some(v) => c.ignore_inactive_oneshot_services = v,
        None => {},
    }
    match read_config_optional_bool(ini, "units", "unit_files")? {
        Some(v) => c.unit_files = v,
        None => {},
    }
    match ini.getuint("units", "per_unit_concurrency") {
        Some(v) => c.per_unit_concurrency = v,
        None => {},
    }
    match ini.getuint("units", "slowest_units_count") {
        Some(v) => c.slowest_units_count = v,
        None => {},
    }
    Ok(c)
}

fn read_dbus(ini: &IniData) -> (r: Result<DBusStatsConfig, MonitordConfigError>)
    ensures
        match r {
            Ok(c) => dbus_fault(ini@) is None && dbus_from(c, ini@),
            Err(e) => dbus_fault(ini@) == Some(config_error_view(e)),
        },
{
    let mut c = DBusStatsConfig::default();
    c.enabled = read_config_bool(ini, "dbus", "enabled")?;
    match read_config_optional_bool(ini, "dbus", "stale_fd_stats")? {
        Some(v) => c.stale_fd_stats = v,
        None => {},
    }
    c.user_stats = read_config_bool(ini, "dbus", "user_stats")?;
    c.user_allowlist = ini.keys("dbus.user.allowlist");
    c.user_blocklist = ini.keys("dbus.user.blocklist");
    c.peer_stats = read_config_bool(ini, "dbus", "peer_stats")?;
    c.peer_well_known_names_only = read_config_bool(ini, "dbus", "peer_well_known_names_only")?;
    c.peer_allowlist = ini.keys("dbus.peer.allowlist");
    c.peer_blocklist = ini.keys("dbus.peer.blocklist");
    match ini.getuint("dbus", "peer_name_concurrency") {
        Some(v) => c.peer_name_concurrency = v,
        None => {},
    }
    c.cgroup_stats = read_config_bool(ini, "dbus", "cgroup_stats")?;
    c.cgroup_allowlist = ini.keys("dbus.cgroup.allowlist");
    c.cgroup_blocklist = ini.keys("dbus.cgroup.blocklist");
    Ok(c)
}

fn read_boot(ini: &IniData) -> (r: Result<BootBlameConfig, MonitordConfigError>)
    ensures
        match r {
            Ok(c) => boot_fault(ini@) is None && boot_from(c, ini@),
            Err(e) => boot_fault(ini@) == Some(config_error_view(e)),
        },
{
    let mut c = BootBlameConfig::default();
    c.enabled = read_config_bool(ini, "boot", "enabled")?;
    match read_config_optional_bool(ini, "boot", "varlink")? {
        Some(v) => c.varlink = v,
        None => {},
    }
    match read_config_optional_bool(ini, "boot", "cache_enabled")? {
        Some(v) => c.cache_enabled = v,
        None => {},
    }
    match ini.get("boot", "cache_dir") {
        Some(v) => c.cache_dir = v,
        None => {},
    }
    match ini.getuint("boot", "num_slowest_units") {
        Some(v) => c.num_slowest_units = v,
        None => {},
    }
    c.allowlist = ini.keys("boot.allowlist");
    c.blocklist = ini.keys("boot.blocklist");
    Ok(c)
}

impl Config {
    /// Build the configuration from a parsed INI file.
    ///
    /// Every key read sets its field and every other field keeps its
    /// default; sections and keys the configuration does not know are
    /// ignored here (`unknown_config_entries` lists them). The first
    /// boolean that is neither `true` nor `false`, a missing
    /// `[monitord] output_format` or one that names no format is the error.
    pub fn try_from(ini: &IniData) -> (r: Result<Config, MonitordConfigError>)
        ensures
            match r {
                Ok(c) => config_fault(ini@) is None && config_from(c, ini@),
                Err(e) => config_fault(ini@) == Some(config_error_view(e)),
            },
    {
        let mut config = Config::default();
        config.monitord = read_monitord(ini)?;
        config.networkd = read_networkd(ini)?;
        config.pid1.enabled = read_config_bool(ini, "pid1", "enabled")?;
        config.services = ini.keys("services");
        config.system_state.enabled = read_config_bool(ini, "system-state", "enabled")?;
        match read_config_optional_bool(ini, "system-state", "varlink")? {
            Some(v) => config.system_state.varlink = v,
            None => {},
        }
        config.timers.enabled = read_config_bool(ini, "timers", "enabled")?;
        config.timers.allowlist = ini.keys("timers.allowlist");
        config.timers.blocklist = ini.keys("timers.blocklist");
        config.units = read_units(ini)?;
        config.machines.enabled = read_config_bool(ini, "machines", "enabled")?;
        match read_config_optional_bool(ini, "machines", "varlink")? {
            Some(v) => config.machines.varlink = v,
            None => {},
        }
        config.machines.allowlist = ini.keys("machines.allowlist");
        config.machines.blocklist = ini.keys("machines.blocklist");
        config.dbus_stats = read_dbus(ini)?;
        config.boot_blame = read_boot(ini)?;
        config.verify.enabled = read_config_bool(ini, "verify", "enabled")?;
        config.verify.allowlist = ini.keys("verify.allowlist");
        config.verify.blocklist = ini.keys("verify.blocklist");
        config.varlink.enabled = read_config_bool(ini, "varlink", "enabled")?;
        Ok(config)
    }
}

/// Whether a section's entries are data (unit or machine names) rather
/// than fixed keys.
pub open spec fn is_data_section(name: Seq<char>) -> bool {
    name == "services"@
        || name == "timers.allowlist"@
        || name == "timers.blocklist"@
        || name == "units.state_stats.allowlist"@
        || name == "units.state_stats.blocklist"@
        || name == "machines.allowlist"@
        || name == "machines.blocklist"@
        || name == "dbus.user.allowlist"@
        || name == "dbus.user.blocklist"@
        || name == "dbus.peer.allowlist"@
        || name == "dbus.peer.blocklist"@
        || name == "dbus.cgroup.allowlist"@
        || name == "dbus.cgroup.blocklist"@
        || name == "boot.allowlist"@
        || name == "boot.blocklist"@
        || name == "verify.allowlist"@
        || name == "verify.blocklist"@
}

/// Whether `section` is a fixed-key section the configuration reads.
pub open spec fn is_known_section(section: Seq<char>) -> bool {
    section == "monitord"@
        || section == "networkd"@
        || section == "pid1"@
        || section == "system-state"@
        || section == "timers"@
        || section == "units"@
        || section == "machines"@
        || section == "dbus"@
        || section == "boot"@
        || section == "verify"@
        || section == "varlink"@
}

/// Whether the configuration reads `key` in the fixed-key `section`.
pub open spec fn is_known_key(section: Seq<char>, key: Seq<char>) -> bool {
    if section == "monitord"@ {
        key == "dbus_address"@ || key == "dbus_timeout"@ || key == "daemon"@ || key == "daemon_stats_refresh_secs"@ || key == "key_prefix"@ || key == "output_format"@
    } else if section == "networkd"@ {
        key == "enabled"@ || key == "varlink"@ || key == "link_state_dir"@
    } else if section == "pid1"@ {
        key == "enabled"@
    } else if section == "system-state"@ {
        key == "enabled"@ || key == "varlink"@
    } else if section == "timers"@ {
        key == "enabled"@
    } else if section == "units"@ {
        key == "enabled"@ || key == "varlink"@ || key == "state_stats"@ || key == "state_stats_time_in_state"@ || key == "ignore_inactive_oneshot_services"@ || key == "unit_files"@ || key == "per_unit_concurrency"@ || key == "slowest_units_count"@
    } else if section == "machines"@ {
        key == "enabled"@ || key == "varlink"@
    } else if section == "dbus"@ {
        key == "enabled"@ || key == "stale_fd_stats"@ || key == "user_stats"@ || key == "peer_stats"@ || key == "peer_well_known_names_only"@ || key == "peer_name_concurrency"@ || key == "cgroup_stats"@
    } else if section == "boot"@ {
        key == "enabled"@ || key == "varlink"@ || key == "cache_enabled"@ || key == "cache_dir"@ || key == "num_slowest_units"@
    } else if section == "verify"@ {
        key == "enabled"@
    } else if section == "varlink"@ {
        key == "enabled"@
    } else {
        false
    }
}

fn data_section(name: &str) -> (r: bool)
    ensures
        r == is_data_section(name@),
{
    str_eq(name, "services")
        || str_eq(name, "timers.allowlist")
        || str_eq(name, "timers.blocklist")
        || str_eq(name, "units.state_stats.allowlist")
        || str_eq(name, "units.state_stats.blocklist")
        || str_eq(name, "machines.allowlist")
        || str_eq(name, "machines.blocklist")
        || str_eq(name, "dbus.user.allowlist")
        || str_eq(name, "dbus.user.blocklist")
        || str_eq(name, "dbus.peer.allowlist")
        || str_eq(name, "dbus.peer.blocklist")
        || str_eq(name, "dbus.cgroup.allowlist")
        || str_eq(name, "dbus.cgroup.blocklist")
        || str_eq(name, "boot.allowlist")
        || str_eq(name, "boot.blocklist")
        || str_eq(name, "verify.allowlist")
        || str_eq(name, "verify.blocklist")
}

fn known_section(section: &str) -> (r: bool)
    ensures
        r == is_known_section(section@),
{
    str_eq(section, "monitord")
        || str_eq(section, "networkd")
        || str_eq(section, "pid1")
        || str_eq(section, "system-state")
        || str_eq(section, "timers")
        || str_eq(section, "units")
        || str_eq(section, "machines")
        || str_eq(section, "dbus")
        || str_eq(section, "boot")
        || str_eq(section, "verify")
        || str_eq(section, "varlink")
}

fn known_key(section: &str, key: &str) -> (r: bool)
    ensures
        r == is_known_key(section@, key@),
{
    if str_eq(section, "monitord") {
        str_eq(key, "dbus_address") || str_eq(key, "dbus_timeout") || str_eq(key, "daemon") || str_eq(key, "daemon_stats_refresh_secs") || str_eq(key, "key_prefix") || str_eq(key, "output_format")
    } else if str_eq(section, "networkd") {
        str_eq(key, "enabled") || str_eq(key, "varlink") || str_eq(key, "link_state_dir")
    } else if str_eq(section, "pid1") {
        str_eq(key, "enabled")
    } else if str_eq(section, "system-state") {
        str_eq(key, "enabled") || str_eq(key, "varlink")
    } else if str_eq(section, "timers") {
        str_eq(key, "enabled")
    } else if str_eq(section, "units") {
        str_eq(key, "enabled") || str_eq(key, "varlink") || str_eq(key, "state_stats") || str_eq(key, "state_stats_time_in_state") || str_eq(key, "ignore_inactive_oneshot_services") || str_eq(key, "unit_files") || str_eq(key, "per_unit_concurrency") || str_eq(key, "slowest_units_count")
    } else if str_eq(section, "machines") {
        str_eq(key, "enabled") || str_eq(key, "varlink")
    } else if str_eq(section, "dbus") {
        str_eq(key, "enabled") || str_eq(key, "stale_fd_stats") || str_eq(key, "user_stats") || str_eq(key, "peer_stats") || str_eq(key, "peer_well_known_names_only") || str_eq(key, "peer_name_concurrency") || str_eq(key, "cgroup_stats")
    } else if str_eq(section, "boot") {
        str_eq(key, "enabled") || str_eq(key, "varlink") || str_eq(key, "cache_enabled") || str_eq(key, "cache_dir") || str_eq(key, "num_slowest_units")
    } else if str_eq(section, "verify") {
        str_eq(key, "enabled")
    } else if str_eq(section, "varlink") {
        str_eq(key, "enabled")
    } else {
        false
    }
}

/// The warnings for one section: none for a data section, one for a section
/// that is not known, one per unknown key of a known section.
pub open spec fn section_warnings(name: Seq<char>, entries: IniEntries) -> Seq<Seq<char>> {
    if is_data_section(name) {
        Seq::empty()
    } else if !is_known_section(name) {
        seq!["unknown section ["@ + name + "]"@]
    } else {
        key_warnings(name, entries)
    }
}

pub open spec fn key_warnings(name: Seq<char>, entries: IniEntries) -> Seq<Seq<char>>
    decreases entries.len(),
{
    if entries.len() == 0 {
        Seq::empty()
    } else {
        let key = entries[0].0;
        let rest = key_warnings(name, entries.drop_first());
        if is_known_key(name, key) {
            rest
        } else {
            seq!["unknown key '"@ + key + "' in ["@ + name + "]"@] + rest
        }
    }
}

/// The warnings for every section, in file order.
pub open spec fn config_warnings(m: IniMap) -> Seq<Seq<char>>
    decreases m.len(),
{
    if m.len() == 0 {
        Seq::empty()
    } else {
        section_warnings(m[0].0, m[0].1) + config_warnings(m.drop_first())
    }
}

/// Unrecognized sections and keys, so that a typo'd key is reported rather
/// than silently ignored. Data sections (`[services]`, `*.allowlist`,
/// `*.blocklist`) take arbitrary entries and are exempt.
pub fn unknown_config_entries(ini: &IniData) -> (r: Vec<String>)
    ensures
        r@.map_values(|s: String| s@) == config_warnings(ini@),
{
    let ghost m = ini@;
    let mut r: Vec<String> = Vec::new();
    let mut i: usize = 0;
    proof {
        assert(m.skip(0) =~= m);
        assert(r@.map_values(|s: String| s@) =~= Seq::<Seq<char>>::empty());
    }
    while i < ini.sections.len()
        invariant
            i <= ini.sections.len(),
            m == ini@,
            m.len() == ini.sections.len(),
            r@.map_values(|s: String| s@) + config_warnings(m.skip(i as int)) == config_warnings(m),
        decreases ini.sections.len() - i,
    {
        let section = &ini.sections[i];
        let ghost before = r@.map_values(|s: String| s@);
        proof {
            assert(m.skip(i as int)[0] == m[i as int]);
            assert(m[i as int] == (section.name@, section.entries_view()));
            assert(m.skip(i as int).drop_first() =~= m.skip(i + 1));
        }
        let name = section.name.as_str();
        if data_section(name) {
        } else if !known_section(name) {
            let mut w = string_of("unknown section [");
            push_str(&mut w, name);
            push_str(&mut w, "]");
            r.push(w);
        } else {
            let ghost e = section.entries_view();
            let mut j: usize = 0;
            proof {
                assert(e.skip(0) =~= e);
                assert(r@.map_values(|s: String| s@) =~= before + Seq::<Seq<char>>::empty());
            }
            while j < section.entries.len()
                invariant
                    j <= section.entries.len(),
                    e == section.entries_view(),
                    e.len() == section.entries.len(),
                    name@ == section.name@,
                    is_known_section(name@),
                    !is_data_section(name@),
                    r@.map_values(|s: String| s@) + key_warnings(name@, e.skip(j as int)) == before
                        + key_warnings(name@, e),
                decreases section.entries.len() - j,
            {
                let key = section.entries[j].0.as_str();
                let ghost pre = r@.map_values(|s: String| s@);
                proof {
                    assert(e.skip(j as int)[0] == e[j as int]);
                    assert(e[j as int].0 == key@);
                    assert(e.skip(j as int).drop_first() =~= e.skip(j + 1));
                }
                if !known_key(name, key) {
                    let mut w = string_of("unknown key '");
                    push_str(&mut w, key);
                    push_str(&mut w, "' in [");
                    push_str(&mut w, name);
                    push_str(&mut w, "]");
                    r.push(w);
                    proof {
                        assert(r@.map_values(|s: String| s@) =~= pre.push(w@));
                        assert(pre.push(w@) + key_warnings(name@, e.skip(j + 1)) =~= pre + key_warnings(
                            name@,
                            e.skip(j as int),
                        ));
                    }
                } else {
                }
                j = j + 1;
            }
            proof {
                assert(e.skip(j as int) =~= Seq::<(Seq<char>, Option<Seq<char>>)>::empty());
                assert(r@.map_values(|s: String| s@) =~= before + key_warnings(name@, e));
            }
        }
        proof {
            let now = r@.map_values(|s: String| s@);
            assert(now =~= before + section_warnings(section.name@, section.entries_view()));
            assert(now + config_warnings(m.skip(i + 1)) =~= before + config_warnings(m.skip(i as int)));
        }
        i = i + 1;
    }
    proof {
        assert(m.skip(i as int) =~= Seq::<(Seq<char>, IniEntries)>::empty());
        assert(r@.map_values(|s: String| s@) =~= config_warnings(m));
    }
    r
}

} // verus!
