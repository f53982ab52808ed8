//! Unit active and load states as systemd names them, and the health rule
//! that the unit collectors apply to them.
//!
//! Reference: <https://www.freedesktop.org/software/systemd/man/org.freedesktop.systemd1.html>
use vstd::prelude::*;

use crate::text::str_eq;

verus! {

/// Possible systemd unit active states. Their numbers (`to_u8`) are the
/// ones the stats report.
#[allow(non_camel_case_types)]
#[derive(Clone, Copy, Debug, PartialEq, Eq, Structural, Hash)]
pub enum SystemdUnitActiveState {
    unknown,
    active,
    reloading,
    inactive,
    failed,
    activating,
    deactivating,
}

/// Possible systemd unit load states.
#[allow(non_camel_case_types)]
#[derive(Clone, Copy, Debug, PartialEq, Eq, Structural, Hash)]
pub enum SystemdUnitLoadState {
    unknown,
    loaded,
    error,
    masked,
    not_found,
}

impl Default for SystemdUnitActiveState {
    fn default() -> (r: Self)
        ensures
            r == SystemdUnitActiveState::unknown,
    {
        SystemdUnitActiveState::unknown
    }
}

impl Default for SystemdUnitLoadState {
    fn default() -> (r: Self)
        ensures
            r == SystemdUnitLoadState::unknown,
    {
        SystemdUnitLoadState::unknown
    }
}

/// The number of an active state.
pub open spec fn active_state_number(s: SystemdUnitActiveState) -> u8 {
    match s {
        SystemdUnitActiveState::unknown => 0,
        SystemdUnitActiveState::active => 1,
        SystemdUnitActiveState::reloading => 2,
        SystemdUnitActiveState::inactive => 3,
        SystemdUnitActiveState::failed => 4,
        SystemdUnitActiveState::activating => 5,
        SystemdUnitActiveState::deactivating => 6,
    }
}

/// The number of a load state.
pub open spec fn load_state_number(s: SystemdUnitLoadState) -> u8 {
    match s {
        SystemdUnitLoadState::unknown => 0,
        SystemdUnitLoadState::loaded => 1,
        SystemdUnitLoadState::error => 2,
        SystemdUnitLoadState::masked => 3,
        SystemdUnitLoadState::not_found => 4,
    }
}

/// The name of an active state, as systemd spells it.
pub open spec fn active_state_name(s: SystemdUnitActiveState) -> Seq<char> {
    match s {
        SystemdUnitActiveState::unknown => "unknown"@,
        SystemdUnitActiveState::active => "active"@,
        SystemdUnitActiveState::reloading => "reloading"@,
        SystemdUnitActiveState::inactive => "inactive"@,
        SystemdUnitActiveState::failed => "failed"@,
        SystemdUnitActiveState::activating => "activating"@,
        SystemdUnitActiveState::deactivating => "deactivating"@,
    }
}

/// The name of a load state, as the variant is spelled.
pub open spec fn load_state_name(s: SystemdUnitLoadState) -> Seq<char> {
    match s {
        SystemdUnitLoadState::unknown => "unknown"@,
        SystemdUnitLoadState::loaded => "loaded"@,
        SystemdUnitLoadState::error => "error"@,
        SystemdUnitLoadState::masked => "masked"@,
        SystemdUnitLoadState::not_found => "not_found"@,
    }
}

/// The active state whose name is `s`, if any.
pub open spec fn active_state_of_name(s: Seq<char>) -> Option<SystemdUnitActiveState> {
    if s == "unknown"@ {
        Some(SystemdUnitActiveState::unknown)
    } else if s == "active"@ {
        Some(SystemdUnitActiveState::active)
    } else if s == "reloading"@ {
        Some(SystemdUnitActiveState::reloading)
    } else if s == "inactive"@ {
        Some(SystemdUnitActiveState::inactive)
    } else if s == "failed"@ {
        Some(SystemdUnitActiveState::failed)
    } else if s == "activating"@ {
        Some(SystemdUnitActiveState::activating)
    } else if s == "deactivating"@ {
        Some(SystemdUnitActiveState::deactivating)
    } else {
        None
    }
}

/// The load state whose name is `s`, if any.
pub open spec fn load_state_of_name(s: Seq<char>) -> Option<SystemdUnitLoadState> {
    if s == "unknown"@ {
        Some(SystemdUnitLoadState::unknown)
    } else if s == "loaded"@ {
        Some(SystemdUnitLoadState::loaded)
    } else if s == "error"@ {
        Some(SystemdUnitLoadState::error)
    } else if s == "masked"@ {
        Some(SystemdUnitLoadState::masked)
    } else if s == "not_found"@ {
        Some(SystemdUnitLoadState::not_found)
    } else {
        None
    }
}

impl SystemdUnitActiveState {
    /// Every state, in number order.
    pub fn all() -> (r: [SystemdUnitActiveState; 7])
        ensures
            r@ == seq![
                SystemdUnitActiveState::unknown,
                SystemdUnitActiveState::active,
                SystemdUnitActiveState::reloading,
                SystemdUnitActiveState::inactive,
                SystemdUnitActiveState::failed,
                SystemdUnitActiveState::activating,
                SystemdUnitActiveState::deactivating,
            ],
    {
        [
            SystemdUnitActiveState::unknown,
            SystemdUnitActiveState::active,
            SystemdUnitActiveState::reloading,
            SystemdUnitActiveState::inactive,
            SystemdUnitActiveState::failed,
            SystemdUnitActiveState::activating,
            SystemdUnitActiveState::deactivating,
        ]
    }

    /// The state's number.
    pub fn to_u8(self) -> (r: u8)
        ensures
            r == active_state_number(self),
    {
        match self {
            SystemdUnitActiveState::unknown => 0,
            SystemdUnitActiveState::active => 1,
            SystemdUnitActiveState::reloading => 2,
            SystemdUnitActiveState::inactive => 3,
            SystemdUnitActiveState::failed => 4,
            SystemdUnitActiveState::activating => 5,
            SystemdUnitActiveState::deactivating => 6,
        }
    }

    /// The state with number `v`; `None` for a number no state has.
    pub fn from_u8(v: u8) -> (r: Option<Self>)
        ensures
            match r {
                Some(s) => active_state_number(s) == v,
                None => v > 6,
            },
    {
        match v {
            0 => Some(SystemdUnitActiveState::unknown),
            1 => Some(SystemdUnitActiveState::active),
            2 => Some(SystemdUnitActiveState::reloading),
            3 => Some(SystemdUnitActiveState::inactive),
            4 => Some(SystemdUnitActiveState::failed),
            5 => Some(SystemdUnitActiveState::activating),
            6 => Some(SystemdUnitActiveState::deactivating),
            _ => None,
        }
    }

    pub fn name(&self) -> (r: &'static str)
        ensures
            r@ == active_state_name(*self),
    {
        match self {
            SystemdUnitActiveState::unknown => "unknown",
            SystemdUnitActiveState::active => "active",
            SystemdUnitActiveState::reloading => "reloading",
            SystemdUnitActiveState::inactive => "inactive",
            SystemdUnitActiveState::failed => "failed",
            SystemdUnitActiveState::activating => "activating",
            SystemdUnitActiveState::deactivating => "deactivating",
        }
    }

    /// The state named `s`; names are matched exactly (case included).
    pub fn from_name(s: &str) -> (r: Option<Self>)
        ensures
            r == active_state_of_name(s@),
    {
        if str_eq(s, "unknown") {
            Some(SystemdUnitActiveState::unknown)
        } else if str_eq(s, "active") {
            Some(SystemdUnitActiveState::active)
        } else if str_eq(s, "reloading") {
            Some(SystemdUnitActiveState::reloading)
        } else if str_eq(s, "inactive") {
            Some(SystemdUnitActiveState::inactive)
        } else if str_eq(s, "failed") {
            Some(SystemdUnitActiveState::failed)
        } else if str_eq(s, "activating") {
            Some(SystemdUnitActiveState::activating)
        } else if str_eq(s, "deactivating") {
            Some(SystemdUnitActiveState::deactivating)
        } else {
            None
        }
    }
}

impl SystemdUnitLoadState {
    /// Every state, in number order.
    pub fn all() -> (r: [SystemdUnitLoadState; 5])
        ensures
            r@ == seq![
                SystemdUnitLoadState::unknown,
                SystemdUnitLoadState::loaded,
                SystemdUnitLoadState::error,
                SystemdUnitLoadState::masked,
                SystemdUnitLoadState::not_found,
            ],
    {
        [
            SystemdUnitLoadState::unknown,
            SystemdUnitLoadState::loaded,
            SystemdUnitLoadState::error,
            SystemdUnitLoadState::masked,
            SystemdUnitLoadState::not_found,
        ]
    }

    /// The state's number.
    pub fn to_u8(self) -> (r: u8)
        ensures
            r == load_state_number(self),
    {
        match self {
            SystemdUnitLoadState::unknown => 0,
            SystemdUnitLoadState::loaded => 1,
            SystemdUnitLoadState::error => 2,
            SystemdUnitLoadState::masked => 3,
            SystemdUnitLoadState::not_found => 4,
        }
    }

    /// The state with number `v`; `None` for a number no state has.
    pub fn from_u8(v: u8) -> (r: Option<Self>)
        ensures
            match r {
                Some(s) => load_state_number(s) == v,
                None => v > 4,
            },
    {
        match v {
            0 => Some(SystemdUnitLoadState::unknown),
            1 => Some(SystemdUnitLoadState::loaded),
            2 => Some(SystemdUnitLoadState::error),
            3 => Some(SystemdUnitLoadState::masked),
            4 => Some(SystemdUnitLoadState::not_found),
            _ => None,
        }
    }

    pub fn name(&self) -> (r: &'static str)
        ensures
            r@ == load_state_name(*self),
    {
        match self {
            SystemdUnitLoadState::unknown => "unknown",
            SystemdUnitLoadState::loaded => "loaded",
            SystemdUnitLoadState::error => "error",
            SystemdUnitLoadState::masked => "masked",
            SystemdUnitLoadState::not_found => "not_found",
        }
    }

    /// The state named `s`; names are matched exactly (case included).
    pub fn from_name(s: &str) -> (r: Option<Self>)
        ensures
            r == load_state_of_name(s@),
    {
        if str_eq(s, "unknown") {
            Some(SystemdUnitLoadState::unknown)
        } else if str_eq(s, "loaded") {
            Some(SystemdUnitLoadState::loaded)
        } else if str_eq(s, "error") {
            Some(SystemdUnitLoadState::error)
        } else if str_eq(s, "masked") {
            Some(SystemdUnitLoadState::masked)
        } else if str_eq(s, "not_found") {
            Some(SystemdUnitLoadState::not_found)
        } else {
            None
        }
    }
}

/// The health rule: a loaded unit is unhealthy unless it is active, a masked
/// unit is never unhealthy (an admin masks units on purpose), and a unit in
/// any other load state is unhealthy.
pub open spec fn unit_unhealthy(
    active_state: SystemdUnitActiveState,
    load_state: SystemdUnitLoadState,
) -> bool {
    match load_state {
        SystemdUnitLoadState::loaded => active_state != SystemdUnitActiveState::active,
        SystemdUnitLoadState::masked => false,
        _ => true,
    }
}

/// Whether a unit in these states counts as unhealthy.
pub fn is_unit_unhealthy(
    active_state: SystemdUnitActiveState,
    load_state: SystemdUnitLoadState,
) -> (r: bool)
    ensures
        r == unit_unhealthy(active_state, load_state),
        load_state == SystemdUnitLoadState::masked ==> !r,
        load_state == SystemdUnitLoadState::loaded ==> (r <==> active_state
            != SystemdUnitActiveState::active),
{
    match load_state {
        SystemdUnitLoadState::loaded => !matches!(active_state, SystemdUnitActiveState::active),
        SystemdUnitLoadState::masked => false,
        _ => true,
    }
}

/// Every state has a number that gives it back, and every name it is given
/// reads back as that state.
pub proof fn active_state_round_trip(s: SystemdUnitActiveState)
    ensures
        active_state_of_name(active_state_name(s)) == Some(s),
        active_state_number(s) <= 6,
{
    reveal_strlit("unknown");
    reveal_strlit("active");
    reveal_strlit("reloading");
    reveal_strlit("inactive");
    reveal_strlit("failed");
    reveal_strlit("activating");
    reveal_strlit("deactivating");
    let n = active_state_name(s);
    assert(n.len() == 6 ==> n[0] == 'a' || n[0] == 'f');
    assert(n.len() == 6 && n[0] == 'f' ==> n != "active"@);
    assert(n.len() == 6 && n[0] == 'a' ==> n == "active"@);
}

/// Every load state's name reads back as that state.
pub proof fn load_state_round_trip(s: SystemdUnitLoadState)
    ensures
        load_state_of_name(load_state_name(s)) == Some(s),
        load_state_number(s) <= 4,
{
    reveal_strlit("unknown");
    reveal_strlit("loaded");
    reveal_strlit("error");
    reveal_strlit("masked");
    reveal_strlit("not_found");
    let n = load_state_name(s);
    assert(n.len() == 6 && n[0] == 'm' ==> n != "loaded"@);
}


/// The suffix of service unit names.
pub const SYSTEMD_SERVICE_SUFFIX: &'static str = ".service";

/// The health rule for a unit that may be a oneshot service: an inactive,
/// loaded oneshot service has simply finished, so with
/// `ignore_inactive_oneshot` it is healthy; otherwise `unit_unhealthy`.
pub open spec fn service_unhealthy(
    active_state: SystemdUnitActiveState,
    load_state: SystemdUnitLoadState,
    is_oneshot: bool,
    ignore_inactive_oneshot: bool,
) -> bool {
    if ignore_inactive_oneshot && is_oneshot && active_state == SystemdUnitActiveState::inactive
        && load_state == SystemdUnitLoadState::loaded {
        false
    } else {
        unit_unhealthy(active_state, load_state)
    }
}

/// Whether a unit counts as unhealthy, given whether it is a oneshot
/// service and whether inactive oneshot services are ignored.
pub fn is_unit_unhealthy_for_service(
    active_state: SystemdUnitActiveState,
    load_state: SystemdUnitLoadState,
    is_oneshot: bool,
    ignore_inactive_oneshot: bool,
) -> (r: bool)
    ensures
        r == service_unhealthy(active_state, load_state, is_oneshot, ignore_inactive_oneshot),
        r ==> unit_unhealthy(active_state, load_state),
{
    if ignore_inactive_oneshot && is_oneshot && active_state == SystemdUnitActiveState::inactive
        && load_state == SystemdUnitLoadState::loaded {
        false
    } else {
        is_unit_unhealthy(active_state, load_state)
    }
}


/// Health by load state: a loaded unit is unhealthy exactly when it is not
/// active, a masked unit never is, and a unit that is not found, failed to
/// load or is in an unknown load state always is.
pub proof fn lemma_unit_health(a: SystemdUnitActiveState, l: SystemdUnitLoadState)
    ensures
        l == SystemdUnitLoadState::loaded ==> (unit_unhealthy(a, l) <==> a != SystemdUnitActiveState::active),
        l == SystemdUnitLoadState::masked ==> !unit_unhealthy(a, l),
        l == SystemdUnitLoadState::not_found || l == SystemdUnitLoadState::error || l
            == SystemdUnitLoadState::unknown ==> unit_unhealthy(a, l),
{
}

/// Ignoring inactive oneshot services makes exactly the loaded, inactive
/// oneshot services healthy; every other unit's health is unchanged.
pub proof fn lemma_oneshot_health(a: SystemdUnitActiveState, l: SystemdUnitLoadState, is_oneshot: bool)
    ensures
        is_oneshot && a == SystemdUnitActiveState::inactive && l == SystemdUnitLoadState::loaded ==> !service_unhealthy(
            a,
            l,
            is_oneshot,
            true,
        ),
        !(is_oneshot && a == SystemdUnitActiveState::inactive && l == SystemdUnitLoadState::loaded) ==> service_unhealthy(
            a,
            l,
            is_oneshot,
            true,
        ) == unit_unhealthy(a, l),
        service_unhealthy(a, l, is_oneshot, false) == unit_unhealthy(a, l),
{
}

} // verus!
