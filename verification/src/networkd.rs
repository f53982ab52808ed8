//! systemd-networkd's per-link states, read from its state files
//! (`/run/systemd/netif/links/<ifindex>`) or from `io.systemd.Network`.
//!
//! The state values are those of systemd's `network-util.h`.
use vstd::prelude::*;

use crate::text::{lines, split_once, str_eq};

verus! {

/// An address state.
#[allow(non_camel_case_types)]
#[derive(Clone, Copy, Debug, PartialEq, Eq, Structural)]
pub enum AddressState {
    unknown,
    off,
    degraded,
    routable,
}

/// An interface's administrative state.
#[allow(non_camel_case_types)]
#[derive(Clone, Copy, Debug, PartialEq, Eq, Structural)]
pub enum AdminState {
    unknown,
    pending,
    failed,
    configuring,
    configured,
    unmanaged,
    linger,
}

/// A yes/no option, e.g. required for online.
#[allow(non_camel_case_types)]
#[derive(Clone, Copy, Debug, PartialEq, Eq, Structural)]
pub enum BoolState {
    unknown,
    False,
    True,
}

/// The physical carrier state of an interface.
#[allow(non_camel_case_types)]
#[derive(Clone, Copy, Debug, PartialEq, Eq, Structural)]
pub enum CarrierState {
    unknown,
    off,
    no_carrier,
    dormant,
    degraded_carrier,
    carrier,
    enslaved,
}

/// networkd's online state.
#[allow(non_camel_case_types)]
#[derive(Clone, Copy, Debug, PartialEq, Eq, Structural)]
pub enum OnlineState {
    unknown,
    offline,
    partial,
    online,
}

/// networkd's operational state.
#[allow(non_camel_case_types)]
#[derive(Clone, Copy, Debug, PartialEq, Eq, Structural)]
pub enum OperState {
    unknown,
    missing,
    off,
    no_carrier,
    dormant,
    degraded_carrier,
    carrier,
    degraded,
    enslaved,
    routable,
}

/// The numbers the states are reported as.
pub open spec fn address_state_number(s: AddressState) -> u8 {
    match s {
        AddressState::unknown => 0,
        AddressState::off => 1,
        AddressState::degraded => 2,
        AddressState::routable => 3,
    }
}

pub open spec fn admin_state_number(s: AdminState) -> u8 {
    match s {
        AdminState::unknown => 0,
        AdminState::pending => 1,
        AdminState::failed => 2,
        AdminState::configuring => 3,
        AdminState::configured => 4,
        AdminState::unmanaged => 5,
        AdminState::linger => 6,
    }
}

pub open spec fn bool_state_number(s: BoolState) -> u8 {
    match s {
        BoolState::unknown => 255,
        BoolState::False => 0,
        BoolState::True => 1,
    }
}

pub open spec fn carrier_state_number(s: CarrierState) -> u8 {
    match s {
        CarrierState::unknown => 0,
        CarrierState::off => 1,
        CarrierState::no_carrier => 2,
        CarrierState::dormant => 3,
        CarrierState::degraded_carrier => 4,
        CarrierState::carrier => 5,
        CarrierState::enslaved => 6,
    }
}

pub open spec fn online_state_number(s: OnlineState) -> u8 {
    match s {
        OnlineState::unknown => 0,
        OnlineState::offline => 1,
        OnlineState::partial => 2,
        OnlineState::online => 3,
    }
}

pub open spec fn oper_state_number(s: OperState) -> u8 {
    match s {
        OperState::unknown => 0,
        OperState::missing => 1,
        OperState::off => 2,
        OperState::no_carrier => 3,
        OperState::dormant => 4,
        OperState::degraded_carrier => 5,
        OperState::carrier => 6,
        OperState::degraded => 7,
        OperState::enslaved => 8,
        OperState::routable => 9,
    }
}

/// The state each name stands for; any other name is `unknown`.
pub open spec fn address_state_of(s: Seq<char>) -> AddressState {
    if s == "off"@ {
        AddressState::off
    } else if s == "degraded"@ {
        AddressState::degraded
    } else if s == "routable"@ {
        AddressState::routable
    } else {
        AddressState::unknown
    }
}

pub open spec fn admin_state_of(s: Seq<char>) -> AdminState {
    if s == "pending"@ {
        AdminState::pending
    } else if s == "failed"@ {
        AdminState::failed
    } else if s == "configuring"@ {
        AdminState::configuring
    } else if s == "configured"@ {
        AdminState::configured
    } else if s == "unmanaged"@ {
        AdminState::unmanaged
    } else if s == "linger"@ {
        AdminState::linger
    } else {
        AdminState::unknown
    }
}

/// "true", "True", "yes" and "Yes" are true; "false", "False", "no" and
/// "No" are false.
pub open spec fn bool_state_of(s: Seq<char>) -> BoolState {
    if s == "false"@ || s == "False"@ || s == "no"@ || s == "No"@ {
        BoolState::False
    } else if s == "true"@ || s == "True"@ || s == "yes"@ || s == "Yes"@ {
        BoolState::True
    } else {
        BoolState::unknown
    }
}

/// The two-word states are read with a `-` or a `_`.
pub open spec fn carrier_state_of(s: Seq<char>) -> CarrierState {
    if s == "off"@ {
        CarrierState::off
    } else if s == "no-carrier"@ || s == "no_carrier"@ {
        CarrierState::no_carrier
    } else if s == "dormant"@ {
        CarrierState::dormant
    } else if s == "degraded-carrier"@ || s == "degraded_carrier"@ {
        CarrierState::degraded_carrier
    } else if s == "carrier"@ {
        CarrierState::carrier
    } else if s == "enslaved"@ {
        CarrierState::enslaved
    } else {
        CarrierState::unknown
    }
}

pub open spec fn oper_state_of(s: Seq<char>) -> OperState {
    if s == "missing"@ {
        OperState::missing
    } else if s == "off"@ {
        OperState::off
    } else if s == "no-carrier"@ || s == "no_carrier"@ {
        OperState::no_carrier
    } else if s == "dormant"@ {
        OperState::dormant
    } else if s == "degraded-carrier"@ || s == "degraded_carrier"@ {
        OperState::degraded_carrier
    } else if s == "carrier"@ {
        OperState::carrier
    } else if s == "degraded"@ {
        OperState::degraded
    } else if s == "enslaved"@ {
        OperState::enslaved
    } else if s == "routable"@ {
        OperState::routable
    } else {
        OperState::unknown
    }
}

pub fn parse_address_state(s: &str) -> (r: AddressState)
    ensures
        r == address_state_of(s@),
{
    if str_eq(s, "off") {
        AddressState::off
    } else if str_eq(s, "degraded") {
        AddressState::degraded
    } else if str_eq(s, "routable") {
        AddressState::routable
    } else {
        AddressState::unknown
    }
}

pub fn parse_admin_state(s: &str) -> (r: AdminState)
    ensures
        r == admin_state_of(s@),
{
    if str_eq(s, "pending") {
        AdminState::pending
    } else if str_eq(s, "failed") {
        AdminState::failed
    } else if str_eq(s, "configuring") {
        AdminState::configuring
    } else if str_eq(s, "configured") {
        AdminState::configured
    } else if str_eq(s, "unmanaged") {
        AdminState::unmanaged
    } else if str_eq(s, "linger") {
        AdminState::linger
    } else {
        AdminState::unknown
    }
}

pub fn parse_bool_state(s: &str) -> (r: BoolState)
    ensures
        r == bool_state_of(s@),
{
    if str_eq(s, "false") || str_eq(s, "False") || str_eq(s, "no") || str_eq(s, "No") {
        BoolState::False
    } else if str_eq(s, "true") || str_eq(s, "True") || str_eq(s, "yes") || str_eq(s, "Yes") {
        BoolState::True
    } else {
        BoolState::unknown
    }
}

pub fn parse_carrier_state(s: &str) -> (r: CarrierState)
    ensures
        r == carrier_state_of(s@),
{
    if str_eq(s, "off") {
        CarrierState::off
    } else if str_eq(s, "no-carrier") || str_eq(s, "no_carrier") {
        CarrierState::no_carrier
    } else if str_eq(s, "dormant") {
        CarrierState::dormant
    } else if str_eq(s, "degraded-carrier") || str_eq(s, "degraded_carrier") {
        CarrierState::degraded_carrier
    } else if str_eq(s, "carrier") {
        CarrierState::carrier
    } else if str_eq(s, "enslaved") {
        CarrierState::enslaved
    } else {
        CarrierState::unknown
    }
}

pub fn parse_oper_state(s: &str) -> (r: OperState)
    ensures
        r == oper_state_of(s@),
{
    if str_eq(s, "missing") {
        OperState::missing
    } else if str_eq(s, "off") {
        OperState::off
    } else if str_eq(s, "no-carrier") || str_eq(s, "no_carrier") {
        OperState::no_carrier
    } else if str_eq(s, "dormant") {
        OperState::dormant
    } else if str_eq(s, "degraded-carrier") || str_eq(s, "degraded_carrier") {
        OperState::degraded_carrier
    } else if str_eq(s, "carrier") {
        OperState::carrier
    } else if str_eq(s, "degraded") {
        OperState::degraded
    } else if str_eq(s, "enslaved") {
        OperState::enslaved
    } else if str_eq(s, "routable") {
        OperState::routable
    } else {
        OperState::unknown
    }
}

impl AddressState {
    pub fn as_u64(self) -> (r: u64)
        ensures
            r == address_state_number(self),
    {
        match self {
            AddressState::unknown => 0,
            AddressState::off => 1,
            AddressState::degraded => 2,
            AddressState::routable => 3,
        }
    }
}

impl AdminState {
    pub fn as_u64(self) -> (r: u64)
        ensures
            r == admin_state_number(self),
    {
        match self {
            AdminState::unknown => 0,
            AdminState::pending => 1,
            AdminState::failed => 2,
            AdminState::configuring => 3,
            AdminState::configured => 4,
            AdminState::unmanaged => 5,
            AdminState::linger => 6,
        }
    }
}

impl BoolState {
    pub fn as_u64(self) -> (r: u64)
        ensures
            r == bool_state_number(self),
    {
        match self {
            BoolState::unknown => 255,
            BoolState::False => 0,
            BoolState::True => 1,
        }
    }
}

impl CarrierState {
    pub fn as_u64(self) -> (r: u64)
        ensures
            r == carrier_state_number(self),
    {
        match self {
            CarrierState::unknown => 0,
            CarrierState::off => 1,
            CarrierState::no_carrier => 2,
            CarrierState::dormant => 3,
            CarrierState::degraded_carrier => 4,
            CarrierState::carrier => 5,
            CarrierState::enslaved => 6,
        }
    }
}

impl OnlineState {
    pub fn as_u64(self) -> (r: u64)
        ensures
            r == online_state_number(self),
    {
        match self {
            OnlineState::unknown => 0,
            OnlineState::offline => 1,
            OnlineState::partial => 2,
            OnlineState::online => 3,
        }
    }
}

impl OperState {
    pub fn as_u64(self) -> (r: u64)
        ensures
            r == oper_state_number(self),
    {
        match self {
            OperState::unknown => 0,
            OperState::missing => 1,
            OperState::off => 2,
            OperState::no_carrier => 3,
            OperState::dormant => 4,
            OperState::degraded_carrier => 5,
            OperState::carrier => 6,
            OperState::degraded => 7,
            OperState::enslaved => 8,
            OperState::routable => 9,
        }
    }
}

/// One link's state.
#[derive(Clone, Debug, PartialEq, Eq)]
pub struct InterfaceState {
    pub address_state: AddressState,
    pub admin_state: AdminState,
    pub carrier_state: CarrierState,
    pub ipv4_address_state: AddressState,
    pub ipv6_address_state: AddressState,
    pub name: String,
    pub network_file: String,
    pub oper_state: OperState,
    pub required_for_online: BoolState,
}

/// An interface state with its texts as character sequences.
pub struct InterfaceFields {
    pub address_state: AddressState,
    pub admin_state: AdminState,
    pub carrier_state: CarrierState,
    pub ipv4_address_state: AddressState,
    pub ipv6_address_state: AddressState,
    pub name: Seq<char>,
    pub network_file: Seq<char>,
    pub oper_state: OperState,
    pub required_for_online: BoolState,
}

pub open spec fn interface_fields(s: InterfaceState) -> InterfaceFields {
    InterfaceFields {
        address_state: s.address_state,
        admin_state: s.admin_state,
        carrier_state: s.carrier_state,
        ipv4_address_state: s.ipv4_address_state,
        ipv6_address_state: s.ipv6_address_state,
        name: s.name@,
        network_file: s.network_file@,
        oper_state: s.oper_state,
        required_for_online: s.required_for_online,
    }
}

/// Nothing known of a link: every state unknown, texts empty.
pub open spec fn no_interface_fields() -> InterfaceFields {
    InterfaceFields {
        address_state: AddressState::unknown,
        admin_state: AdminState::unknown,
        carrier_state: CarrierState::unknown,
        ipv4_address_state: AddressState::unknown,
        ipv6_address_state: AddressState::unknown,
        name: Seq::empty(),
        network_file: Seq::empty(),
        oper_state: OperState::unknown,
        required_for_online: BoolState::unknown,
    }
}

impl Default for InterfaceState {
    fn default() -> (r: Self)
        ensures
            interface_fields(r) == no_interface_fields(),
    {
        InterfaceState {
            address_state: AddressState::unknown,
            admin_state: AdminState::unknown,
            carrier_state: CarrierState::unknown,
            ipv4_address_state: AddressState::unknown,
            ipv6_address_state: AddressState::unknown,
            name: String::new(),
            network_file: String::new(),
            oper_state: OperState::unknown,
            required_for_online: BoolState::unknown,
        }
    }
}

/// The name of the link with index `id`, the first entry for it.
pub open spec fn link_name(names: Seq<(i32, String)>, id: i32) -> Option<Seq<char>>
    decreases names.len(),
{
    if names.len() == 0 {
        None
    } else if names[0].0 == id {
        Some(names[0].1@)
    } else {
        link_name(names.drop_first(), id)
    }
}

/// How one `KEY=value` entry of a state file sets the fields; other keys
/// change nothing.
pub open spec fn apply_state_entry(f: InterfaceFields, key: Seq<char>, value: Seq<char>) -> InterfaceFields {
    if key == "ADDRESS_STATE"@ {
        InterfaceFields { address_state: address_state_of(value), ..f }
    } else if key == "ADMIN_STATE"@ {
        InterfaceFields { admin_state: admin_state_of(value), ..f }
    } else if key == "CARRIER_STATE"@ {
        InterfaceFields { carrier_state: carrier_state_of(value), ..f }
    } else if key == "IPV4_ADDRESS_STATE"@ {
        InterfaceFields { ipv4_address_state: address_state_of(value), ..f }
    } else if key == "IPV6_ADDRESS_STATE"@ {
        InterfaceFields { ipv6_address_state: address_state_of(value), ..f }
    } else if key == "NETWORK_FILE"@ {
        InterfaceFields { network_file: value, ..f }
    } else if key == "OPER_STATE"@ {
        InterfaceFields { oper_state: oper_state_of(value), ..f }
    } else if key == "REQUIRED_FOR_ONLINE"@ {
        InterfaceFields { required_for_online: bool_state_of(value), ..f }
    } else {
        f
    }
}

/// How one line of a state file changes the fields: a line without `=` is
/// skipped; any other names the link (by its index, when that is positive)
/// and is split at its first `=` into key and value.
pub open spec fn apply_state_line(
    f: InterfaceFields,
    line: Seq<char>,
    id: i32,
    names: Seq<(i32, String)>,
) -> InterfaceFields {
    match split_once(line, '=') {
        None => f,
        Some((key, value)) => {
            let named = if id > 0 {
                InterfaceFields {
                    name: match link_name(names, id) {
                        Some(n) => n,
                        None => Seq::empty(),
                    },
                    ..f
                }
            } else {
                f
            };
            apply_state_entry(named, key, value)
        },
    }
}

/// The fields a sequence of state file lines sets, starting from nothing.
pub open spec fn state_lines_fields(ls: Seq<Seq<char>>, id: i32, names: Seq<(i32, String)>) -> InterfaceFields
    decreases ls.len(),
{
    if ls.len() == 0 {
        no_interface_fields()
    } else {
        apply_state_line(state_lines_fields(ls.drop_last(), id, names), ls.last(), id, names)
    }
}

fn lookup_link_name(names: &Vec<(i32, String)>, id: i32) -> (r: String)
    ensures
        r@ == (match link_name(names@, id) {
            Some(n) => n,
            None => Seq::empty(),
        }),
{
    let mut i: usize = 0;
    proof {
        assert(names@.skip(0) =~= names@);
    }
    while i < names.len()
        invariant
            i <= names.len(),
            link_name(names@, id) == link_name(names@.skip(i as int), id),
        decreases names.len() - i,
    {
        proof {
            assert(names@.skip(i as int)[0] == names@[i as int]);
            assert(names@.skip(i as int).drop_first() =~= names@.skip(i + 1));
        }
        if names[i].0 == id {
            return names[i].1.clone();
        }
        i = i + 1;
    }
    String::new()
}

fn apply_entry(st: &mut InterfaceState, key: &Vec<char>, klo: usize, khi: usize, value: String)
    requires
        klo <= khi <= key.len(),
    ensures
        interface_fields(*final(st)) == apply_state_entry(
            interface_fields(*old(st)),
            key@.subrange(klo as int, khi as int),
            value@,
        ),
{
    let k = crate::text::string_from_range(key, klo, khi);
    let ks = k.as_str();
    if str_eq(ks, "ADDRESS_STATE") {
        st.address_state = parse_address_state(value.as_str());
    } else if str_eq(ks, "ADMIN_STATE") {
        st.admin_state = parse_admin_state(value.as_str());
    } else if str_eq(ks, "CARRIER_STATE") {
        st.carrier_state = parse_carrier_state(value.as_str());
    } else if str_eq(ks, "IPV4_ADDRESS_STATE") {
        st.ipv4_address_state = parse_address_state(value.as_str());
    } else if str_eq(ks, "IPV6_ADDRESS_STATE") {
        st.ipv6_address_state = parse_address_state(value.as_str());
    } else if str_eq(ks, "NETWORK_FILE") {
        st.network_file = value;
    } else if str_eq(ks, "OPER_STATE") {
        st.oper_state = parse_oper_state(value.as_str());
    } else if str_eq(ks, "REQUIRED_FOR_ONLINE") {
        st.required_for_online = parse_bool_state(value.as_str());
    }
}

/// Read a link's state file: see `state_lines_fields`. `names` maps link
/// indexes to names, as networkd's `ListLinks` reports them.
pub fn parse_interface_stats(interface_state_str: String, interface_id: i32, interface_id_to_name: &Vec<(i32, String)>) -> (r:
    Result<InterfaceState, String>)
    ensures
        r is Ok,
        interface_fields(r.unwrap()) == state_lines_fields(
            lines(interface_state_str@),
            interface_id,
            interface_id_to_name@,
        ),
{
    let v = crate::text::str_chars(interface_state_str.as_str());
    let ranges = crate::text::line_ranges(&v);
    let ghost ls = lines(v@);
    let mut st = InterfaceState::default();
    let mut i: usize = 0;
    proof {
        assert(ls.take(0) =~= Seq::<Seq<char>>::empty());
    }
    while i < ranges.len()
        invariant
            i <= ranges.len(),
            ranges@.len() == ls.len(),
            ls == lines(v@),
            forall|j: int| #![trigger ranges@[j]]
                0 <= j < ranges@.len() ==> ranges@[j].0 <= ranges@[j].1 <= v.len() && v@.subrange(
                    ranges@[j].0 as int,
                    ranges@[j].1 as int,
                ) == ls[j],
            interface_fields(st) == state_lines_fields(ls.take(i as int), interface_id, interface_id_to_name@),
        decreases ranges.len() - i,
    {
        let (lo, hi) = ranges[i];
        let ghost line = v@.subrange(lo as int, hi as int);
        proof {
            assert(line == ls[i as int]);
            assert(ls.take(i + 1).drop_last() =~= ls.take(i as int));
            assert(ls.take(i + 1).last() == ls[i as int]);
        }
        match crate::text::find_char(&v, lo, hi, '=') {
            None => {},
            Some(eq) => {
                proof {
                    crate::text::lemma_find_first(line, '=');
                    assert(line.take((eq - lo) as int) =~= v@.subrange(lo as int, eq as int));
                    assert(line.skip((eq - lo) as int + 1) =~= v@.subrange(eq + 1, hi as int));
                }
                if interface_id > 0 {
                    st.name = lookup_link_name(interface_id_to_name, interface_id);
                }
                let value = crate::text::string_from_range(&v, eq + 1, hi);
                apply_entry(&mut st, &v, lo, eq, value);
            },
        }
        i = i + 1;
    }
    proof {
        assert(ls.take(i as int) =~= ls);
    }
    Ok(st)
}


/// Where networkd writes its per-link state files.
pub const NETWORKD_STATE_FILES: &'static str = "/run/systemd/netif/links";

/// The managed links' states and how many links are managed.
#[derive(Clone, Debug, PartialEq, Eq)]
pub struct NetworkdState {
    pub interfaces_state: Vec<InterfaceState>,
    pub managed_interfaces: u64,
}

impl Default for NetworkdState {
    fn default() -> (r: Self)
        ensures
            r.interfaces_state@.len() == 0,
            r.managed_interfaces == 0,
    {
        NetworkdState { interfaces_state: Vec::new(), managed_interfaces: 0 }
    }
}

/// A link's index from its state file's name; 0 when the name is no `i32`.
pub open spec fn link_index_of(file_name: Seq<char>) -> i32 {
    match crate::text::parse_i32_spec(file_name) {
        Some(i) => i,
        None => 0,
    }
}

/// Whether a state file belongs to a managed link: it names a network file.
pub open spec fn is_managed_state(content: Seq<char>) -> bool {
    crate::text::contains_seq(content, "NETWORK_FILE"@)
}

/// The managed links' state files, in order, as fields.
pub open spec fn managed_states(files: Seq<(String, String)>, names: Seq<(i32, String)>) -> Seq<InterfaceFields>
    decreases files.len(),
{
    if files.len() == 0 {
        Seq::empty()
    } else {
        let rest = managed_states(files.drop_last(), names);
        let f = files.last();
        if is_managed_state(f.1@) {
            rest.push(state_lines_fields(lines(f.1@), link_index_of(f.0@), names))
        } else {
            rest
        }
    }
}

/// The networkd state from the link state files, given as (file name,
/// content) pairs: the files of managed links (those naming a network
/// file) are read, each with the link index its name gives.
pub fn parse_interface_state_files(files: Vec<(String, String)>, names: &Vec<(i32, String)>) -> (r: NetworkdState)
    ensures
        r.interfaces_state@.map_values(|s: InterfaceState| interface_fields(s)) == managed_states(files@, names@),
        r.managed_interfaces == r.interfaces_state@.len(),
{
    let ghost all = files@;
    let mut v = files;
    let mut out: Vec<InterfaceState> = Vec::new();
    let mut k: usize = 0;
    let n = v.len();
    proof {
        assert(all.take(0) =~= Seq::<(String, String)>::empty());
        assert(all.skip(0) =~= all);
        assert(out@.map_values(|s: InterfaceState| interface_fields(s)) =~= Seq::<InterfaceFields>::empty());
    }
    while v.len() > 0
        invariant
            k + v.len() == n,
            n == all.len(),
            v@ == all.skip(k as int),
            out@.len() <= k,
            out@.map_values(|s: InterfaceState| interface_fields(s)) == managed_states(all.take(k as int), names@),
        decreases v.len(),
    {
        let (file_name, content) = v.remove(0);
        proof {
            assert((file_name, content) == all[k as int]);
            assert(v@ =~= all.skip(k + 1));
            assert(all.take(k + 1).drop_last() =~= all.take(k as int));
            assert(all.take(k + 1).last() == all[k as int]);
        }
        if crate::text::str_contains(content.as_str(), "NETWORK_FILE") {
            let id: i32 = match crate::text::parse_i32_str(file_name.as_str()) {
                Some(i) => i,
                None => 0,
            };
            let ghost before = out@.map_values(|s: InterfaceState| interface_fields(s));
            match parse_interface_stats(content, id, names) {
                Ok(st) => {
                    out.push(st);
                    proof {
                        assert(out@.map_values(|s: InterfaceState| interface_fields(s)) =~= before.push(interface_fields(st)));
                    }
                },
                Err(_) => {},
            }
        }
        k = k + 1;
    }
    proof {
        assert(all.take(k as int) =~= all);
    }
    let count = out.len() as u64;
    NetworkdState { interfaces_state: out, managed_interfaces: count }
}

/// The state of a link as `io.systemd.Network.Describe` reports it.
pub open spec fn described_fields(i: crate::varlink::network::Interface) -> InterfaceFields {
    InterfaceFields {
        address_state: address_state_of(i.address_state@),
        admin_state: admin_state_of(i.administrative_state@),
        carrier_state: carrier_state_of(i.carrier_state@),
        ipv4_address_state: address_state_of(i.ipv4_address_state@),
        ipv6_address_state: address_state_of(i.ipv6_address_state@),
        name: i.name@,
        network_file: match i.network_file {
            Some(f) => f@,
            None => Seq::empty(),
        },
        oper_state: oper_state_of(i.operational_state@),
        required_for_online: match i.required_for_online {
            Some(true) => BoolState::True,
            Some(false) => BoolState::False,
            None => BoolState::unknown,
        },
    }
}

/// Map a described link onto its state; a state name that is not known
/// (e.g. a newer systemd's) is `unknown`.
pub fn map_interface(iface: &crate::varlink::network::Interface) -> (r: InterfaceState)
    ensures
        interface_fields(r) == described_fields(*iface),
{
    let required_for_online = match iface.required_for_online {
        Some(true) => BoolState::True,
        Some(false) => BoolState::False,
        None => BoolState::unknown,
    };
    let network_file = match &iface.network_file {
        Some(f) => f.clone(),
        None => String::new(),
    };
    InterfaceState {
        address_state: parse_address_state(iface.address_state.as_str()),
        admin_state: parse_admin_state(iface.administrative_state.as_str()),
        carrier_state: parse_carrier_state(iface.carrier_state.as_str()),
        ipv4_address_state: parse_address_state(iface.ipv4_address_state.as_str()),
        ipv6_address_state: parse_address_state(iface.ipv6_address_state.as_str()),
        name: iface.name.clone(),
        network_file,
        oper_state: parse_oper_state(iface.operational_state.as_str()),
        required_for_online,
    }
}

/// The described links that have a network file, in order.
pub open spec fn managed_described(ifaces: Seq<crate::varlink::network::Interface>) -> Seq<InterfaceFields>
    decreases ifaces.len(),
{
    if ifaces.len() == 0 {
        Seq::empty()
    } else {
        let rest = managed_described(ifaces.drop_last());
        if ifaces.last().network_file is Some {
            rest.push(described_fields(ifaces.last()))
        } else {
            rest
        }
    }
}

/// The networkd state from a `Describe` reply: the links with a network
/// file are managed, as for the state files.
pub fn networkd_state_from_describe(output: &crate::varlink::network::DescribeOutput) -> (r: NetworkdState)
    ensures
        r.interfaces_state@.map_values(|s: InterfaceState| interface_fields(s)) == (match output.interfaces {
            Some(v) => managed_described(v@),
            None => Seq::empty(),
        }),
        r.managed_interfaces == r.interfaces_state@.len(),
{
    let mut out: Vec<InterfaceState> = Vec::new();
    match &output.interfaces {
        None => {
            assert(out@.map_values(|s: InterfaceState| interface_fields(s)) =~= Seq::<InterfaceFields>::empty());
        },
        Some(ifaces) => {
            let mut i: usize = 0;
            proof {
                assert(ifaces@.take(0) =~= Seq::<crate::varlink::network::Interface>::empty());
                assert(out@.map_values(|s: InterfaceState| interface_fields(s)) =~= Seq::<InterfaceFields>::empty());
            }
            while i < ifaces.len()
                invariant
                    i <= ifaces.len(),
                    out@.len() <= i,
                    out@.map_values(|s: InterfaceState| interface_fields(s)) == managed_described(ifaces@.take(i as int)),
                decreases ifaces.len() - i,
            {
                let iface = &ifaces[i];
                proof {
                    assert(ifaces@.take(i + 1).drop_last() =~= ifaces@.take(i as int));
                    assert(ifaces@.take(i + 1).last() == *iface);
                }
                if iface.network_file.is_some() {
                    let ghost before = out@.map_values(|s: InterfaceState| interface_fields(s));
                    let st = map_interface(iface);
                    out.push(st);
                    proof {
                        assert(out@.map_values(|s: InterfaceState| interface_fields(s)) =~= before.push(interface_fields(st)));
                    }
                }
                i = i + 1;
            }
            proof {
                assert(ifaces@.take(i as int) =~= ifaces@);
            }
        },
    }
    let count = out.len() as u64;
    NetworkdState { interfaces_state: out, managed_interfaces: count }
}


/// The name systemd gives each AddressState other than `unknown`; `unknown` for
/// `unknown`.
pub open spec fn address_state_name(s: AddressState) -> Seq<char> {
    match s {
        AddressState::off => "off"@,
        AddressState::degraded => "degraded"@,
        AddressState::routable => "routable"@,
        AddressState::unknown => "unknown"@,
    }
}

/// Reading the name systemd gives a AddressState gives that state back.
pub proof fn lemma_address_state_name_read_back(s: AddressState)
    requires
        s != AddressState::unknown,
    ensures
        address_state_of(address_state_name(s)) == s,
{
    reveal_strlit("off");
    reveal_strlit("degraded");
    reveal_strlit("routable");
    match s {
        AddressState::off => {
            assert("off"@.len() != "degraded"@.len());
            assert("off"@.len() != "routable"@.len());
        },
        AddressState::degraded => {
            assert("degraded"@.len() != "off"@.len());
            assert("degraded"@[0] != "routable"@[0]);
        },
        AddressState::routable => {
            assert("routable"@.len() != "off"@.len());
            assert("routable"@[0] != "degraded"@[0]);
        },
        _ => {},
    }
}

/// The name systemd gives each AdminState other than `unknown`; `unknown` for
/// `unknown`.
pub open spec fn admin_state_name(s: AdminState) -> Seq<char> {
    match s {
        AdminState::pending => "pending"@,
        AdminState::failed => "failed"@,
        AdminState::configuring => "configuring"@,
        AdminState::configured => "configured"@,
        AdminState::unmanaged => "unmanaged"@,
        AdminState::linger => "linger"@,
        AdminState::unknown => "unknown"@,
    }
}

/// Reading the name systemd gives a AdminState gives that state back.
pub proof fn lemma_admin_state_name_read_back(s: AdminState)
    requires
        s != AdminState::unknown,
    ensures
        admin_state_of(admin_state_name(s)) == s,
{
    reveal_strlit("pending");
    reveal_strlit("failed");
    reveal_strlit("configuring");
    reveal_strlit("configured");
    reveal_strlit("unmanaged");
    reveal_strlit("linger");
    match s {
        AdminState::pending => {
            assert("pending"@.len() != "failed"@.len());
            assert("pending"@.len() != "configuring"@.len());
            assert("pending"@.len() != "configured"@.len());
            assert("pending"@.len() != "unmanaged"@.len());
            assert("pending"@.len() != "linger"@.len());
        },
        AdminState::failed => {
            assert("failed"@.len() != "pending"@.len());
            assert("failed"@.len() != "configuring"@.len());
            assert("failed"@.len() != "configured"@.len());
            assert("failed"@.len() != "unmanaged"@.len());
            assert("failed"@[0] != "linger"@[0]);
        },
        AdminState::configuring => {
            assert("configuring"@.len() != "pending"@.len());
            assert("configuring"@.len() != "failed"@.len());
            assert("configuring"@.len() != "configured"@.len());
            assert("configuring"@.len() != "unmanaged"@.len());
            assert("configuring"@.len() != "linger"@.len());
        },
        AdminState::configured => {
            assert("configured"@.len() != "pending"@.len());
            assert("configured"@.len() != "failed"@.len());
            assert("configured"@.len() != "configuring"@.len());
            assert("configured"@.len() != "unmanaged"@.len());
            assert("configured"@.len() != "linger"@.len());
        },
        AdminState::unmanaged => {
            assert("unmanaged"@.len() != "pending"@.len());
            assert("unmanaged"@.len() != "failed"@.len());
            assert("unmanaged"@.len() != "configuring"@.len());
            assert("unmanaged"@.len() != "configured"@.len());
            assert("unmanaged"@.len() != "linger"@.len());
        },
        AdminState::linger => {
            assert("linger"@.len() != "pending"@.len());
            assert("linger"@[0] != "failed"@[0]);
            assert("linger"@.len() != "configuring"@.len());
            assert("linger"@.len() != "configured"@.len());
            assert("linger"@.len() != "unmanaged"@.len());
        },
        _ => {},
    }
}

/// The name systemd gives each CarrierState other than `unknown`; `unknown` for
/// `unknown`.
pub open spec fn carrier_state_name(s: CarrierState) -> Seq<char> {
    match s {
        CarrierState::off => "off"@,
        CarrierState::no_carrier => "no-carrier"@,
        CarrierState::dormant => "dormant"@,
        CarrierState::degraded_carrier => "degraded-carrier"@,
        CarrierState::carrier => "carrier"@,
        CarrierState::enslaved => "enslaved"@,
        CarrierState::unknown => "unknown"@,
    }
}

/// Reading the name systemd gives a CarrierState gives that state back.
pub proof fn lemma_carrier_state_name_read_back(s: CarrierState)
    requires
        s != CarrierState::unknown,
    ensures
        carrier_state_of(carrier_state_name(s)) == s,
{
    reveal_strlit("off");
    reveal_strlit("no-carrier");
    reveal_strlit("no_carrier");
    reveal_strlit("dormant");
    reveal_strlit("degraded-carrier");
    reveal_strlit("degraded_carrier");
    reveal_strlit("carrier");
    reveal_strlit("enslaved");
    match s {
        CarrierState::off => {
            assert("off"@.len() != "no-carrier"@.len());
            assert("off"@.len() != "no_carrier"@.len());
            assert("off"@.len() != "dormant"@.len());
            assert("off"@.len() != "degraded-carrier"@.len());
            assert("off"@.len() != "degraded_carrier"@.len());
            assert("off"@.len() != "carrier"@.len());
            assert("off"@.len() != "enslaved"@.len());
        },
        CarrierState::no_carrier => {
            assert("no-carrier"@.len() != "off"@.len());
            assert("no-carrier"@[2] != "no_carrier"@[2]);
            assert("no-carrier"@.len() != "dormant"@.len());
            assert("no-carrier"@.len() != "degraded-carrier"@.len());
            assert("no-carrier"@.len() != "degraded_carrier"@.len());
            assert("no-carrier"@.len() != "carrier"@.len());
            assert("no-carrier"@.len() != "enslaved"@.len());
        },
        CarrierState::dormant => {
            assert("dormant"@.len() != "off"@.len());
            assert("dormant"@.len() != "no-carrier"@.len());
            assert("dormant"@.len() != "no_carrier"@.len());
            assert("dormant"@.len() != "degraded-carrier"@.len());
            assert("dormant"@.len() != "degraded_carrier"@.len());
            assert("dormant"@[0] != "carrier"@[0]);
            assert("dormant"@.len() != "enslaved"@.len());
        },
        CarrierState::degraded_carrier => {
            assert("degraded-carrier"@.len() != "off"@.len());
            assert("degraded-carrier"@.len() != "no-carrier"@.len());
            assert("degraded-carrier"@.len() != "no_carrier"@.len());
            assert("degraded-carrier"@.len() != "dormant"@.len());
            assert("degraded-carrier"@[8] != "degraded_carrier"@[8]);
            assert("degraded-carrier"@.len() != "carrier"@.len());
            assert("degraded-carrier"@.len() != "enslaved"@.len());
        },
        CarrierState::carrier => {
            assert("carrier"@.len() != "off"@.len());
            assert("carrier"@.len() != "no-carrier"@.len());
            assert("carrier"@.len() != "no_carrier"@.len());
            assert("carrier"@[0] != "dormant"@[0]);
            assert("carrier"@.len() != "degraded-carrier"@.len());
            assert("carrier"@.len() != "degraded_carrier"@.len());
            assert("carrier"@.len() != "enslaved"@.len());
        },
        CarrierState::enslaved => {
            assert("enslaved"@.len() != "off"@.len());
            assert("enslaved"@.len() != "no-carrier"@.len());
            assert("enslaved"@.len() != "no_carrier"@.len());
            assert("enslaved"@.len() != "dormant"@.len());
            assert("enslaved"@.len() != "degraded-carrier"@.len());
            assert("enslaved"@.len() != "degraded_carrier"@.len());
            assert("enslaved"@.len() != "carrier"@.len());
        },
        _ => {},
    }
}

/// The name systemd gives each OperState other than `unknown`; `unknown` for
/// `unknown`.
pub open spec fn oper_state_name(s: OperState) -> Seq<char> {
    match s {
        OperState::missing => "missing"@,
        OperState::off => "off"@,
        OperState::no_carrier => "no-carrier"@,
        OperState::dormant => "dormant"@,
        OperState::degraded_carrier => "degraded-carrier"@,
        OperState::carrier => "carrier"@,
        OperState::degraded => "degraded"@,
        OperState::enslaved => "enslaved"@,
        OperState::routable => "routable"@,
        OperState::unknown => "unknown"@,
    }
}

/// Reading the name systemd gives a OperState gives that state back.
pub proof fn lemma_oper_state_name_read_back(s: OperState)
    requires
        s != OperState::unknown,
    ensures
        oper_state_of(oper_state_name(s)) == s,
{
    reveal_strlit("missing");
    reveal_strlit("off");
    reveal_strlit("no-carrier");
    reveal_strlit("no_carrier");
    reveal_strlit("dormant");
    reveal_strlit("degraded-carrier");
    reveal_strlit("degraded_carrier");
    reveal_strlit("carrier");
    reveal_strlit("degraded");
    reveal_strlit("enslaved");
    reveal_strlit("routable");
    match s {
        OperState::missing => {
            assert("missing"@.len() != "off"@.len());
            assert("missing"@.len() != "no-carrier"@.len());
            assert("missing"@.len() != "no_carrier"@.len());
            assert("missing"@[0] != "dormant"@[0]);
            assert("missing"@.len() != "degraded-carrier"@.len());
            assert("missing"@.len() != "degraded_carrier"@.len());
            assert("missing"@[0] != "carrier"@[0]);
            assert("missing"@.len() != "degraded"@.len());
            assert("missing"@.len() != "enslaved"@.len());
            assert("missing"@.len() != "routable"@.len());
        },
        OperState::off => {
            assert("off"@.len() != "missing"@.len());
            assert("off"@.len() != "no-carrier"@.len());
            assert("off"@.len() != "no_carrier"@.len());
            assert("off"@.len() != "dormant"@.len());
            assert("off"@.len() != "degraded-carrier"@.len());
            assert("off"@.len() != "degraded_carrier"@.len());
            assert("off"@.len() != "carrier"@.len());
            assert("off"@.len() != "degraded"@.len());
            assert("off"@.len() != "enslaved"@.len());
            assert("off"@.len() != "routable"@.len());
        },
        OperState::no_carrier => {
            assert("no-carrier"@.len() != "missing"@.len());
            assert("no-carrier"@.len() != "off"@.len());
            assert("no-carrier"@[2] != "no_carrier"@[2]);
            assert("no-carrier"@.len() != "dormant"@.len());
            assert("no-carrier"@.len() != "degraded-carrier"@.len());
            assert("no-carrier"@.len() != "degraded_carrier"@.len());
            assert("no-carrier"@.len() != "carrier"@.len());
            assert("no-carrier"@.len() != "degraded"@.len());
            assert("no-carrier"@.len() != "enslaved"@.len());
            assert("no-carrier"@.len() != "routable"@.len());
        },
        OperState::dormant => {
            assert("dormant"@[0] != "missing"@[0]);
            assert("dormant"@.len() != "off"@.len());
            assert("dormant"@.len() != "no-carrier"@.len());
            assert("dormant"@.len() != "no_carrier"@.len());
            assert("dormant"@.len() != "degraded-carrier"@.len());
            assert("dormant"@.len() != "degraded_carrier"@.len());
            assert("dormant"@[0] != "carrier"@[0]);
            assert("dormant"@.len() != "degraded"@.len());
            assert("dormant"@.len() != "enslaved"@.len());
            assert("dormant"@.len() != "routable"@.len());
        },
        OperState::degraded_carrier => {
            assert("degraded-carrier"@.len() != "missing"@.len());
            assert("degraded-carrier"@.len() != "off"@.len());
            assert("degraded-carrier"@.len() != "no-carrier"@.len());
            assert("degraded-carrier"@.len() != "no_carrier"@.len());
            assert("degraded-carrier"@.len() != "dormant"@.len());
            assert("degraded-carrier"@[8] != "degraded_carrier"@[8]);
            assert("degraded-carrier"@.len() != "carrier"@.len());
            assert("degraded-carrier"@.len() != "degraded"@.len());
            assert("degraded-carrier"@.len() != "enslaved"@.len());
            assert("degraded-carrier"@.len() != "routable"@.len());
        },
        OperState::carrier => {
            assert("carrier"@[0] != "missing"@[0]);
            assert("carrier"@.len() != "off"@.len());
            assert("carrier"@.len() != "no-carrier"@.len());
            assert("carrier"@.len() != "no_carrier"@.len());
            assert("carrier"@[0] != "dormant"@[0]);
            assert("carrier"@.len() != "degraded-carrier"@.len());
            assert("carrier"@.len() != "degraded_carrier"@.len());
            assert("carrier"@.len() != "degraded"@.len());
            assert("carrier"@.len() != "enslaved"@.len());
            assert("carrier"@.len() != "routable"@.len());
        },
        OperState::degraded => {
            assert("degraded"@.len() != "missing"@.len());
            assert("degraded"@.len() != "off"@.len());
            assert("degraded"@.len() != "no-carrier"@.len());
            assert("degraded"@.len() != "no_carrier"@.len());
            assert("degraded"@.len() != "dormant"@.len());
            assert("degraded"@.len() != "degraded-carrier"@.len());
            assert("degraded"@.len() != "degraded_carrier"@.len());
            assert("degraded"@.len() != "carrier"@.len());
            assert("degraded"@[0] != "enslaved"@[0]);
            assert("degraded"@[0] != "routable"@[0]);
        },
        OperState::enslaved => {
            assert("enslaved"@.len() != "missing"@.len());
            assert("enslaved"@.len() != "off"@.len());
            assert("enslaved"@.len() != "no-carrier"@.len());
            assert("enslaved"@.len() != "no_carrier"@.len());
            assert("enslaved"@.len() != "dormant"@.len());
            assert("enslaved"@.len() != "degraded-carrier"@.len());
            assert("enslaved"@.len() != "degraded_carrier"@.len());
            assert("enslaved"@.len() != "carrier"@.len());
            assert("enslaved"@[0] != "degraded"@[0]);
            assert("enslaved"@[0] != "routable"@[0]);
        },
        OperState::routable => {
            assert("routable"@.len() != "missing"@.len());
            assert("routable"@.len() != "off"@.len());
            assert("routable"@.len() != "no-carrier"@.len());
            assert("routable"@.len() != "no_carrier"@.len());
            assert("routable"@.len() != "dormant"@.len());
            assert("routable"@.len() != "degraded-carrier"@.len());
            assert("routable"@.len() != "degraded_carrier"@.len());
            assert("routable"@.len() != "carrier"@.len());
            assert("routable"@[0] != "degraded"@[0]);
            assert("routable"@[0] != "enslaved"@[0]);
        },
        _ => {},
    }
}

} // verus!
