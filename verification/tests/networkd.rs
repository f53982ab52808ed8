use monitord::networkd::{
    map_interface, networkd_state_from_describe, parse_address_state, parse_admin_state, parse_bool_state,
    parse_carrier_state, parse_interface_state_files, parse_interface_stats, parse_oper_state, AddressState,
    AdminState, BoolState, CarrierState, InterfaceState, NetworkdState, OperState,
};
use monitord::varlink::network::{DescribeOutput, Interface};

const MOCK_INTERFACE_STATE: &str = r###"# This is private data. Do not parse.
ADMIN_STATE=configured
OPER_STATE=routable
CARRIER_STATE=carrier
ADDRESS_STATE=routable
IPV4_ADDRESS_STATE=degraded
IPV6_ADDRESS_STATE=routable
ONLINE_STATE=online
REQUIRED_FOR_ONLINE=yes
REQUIRED_OPER_STATE_FOR_ONLINE=degraded:routable
REQUIRED_FAMILY_FOR_ONLINE=any
ACTIVATION_POLICY=up
NETWORK_FILE=/etc/systemd/network/69-eno4.network
NETWORK_FILE_DROPINS=""
DNS=8.8.8.8 8.8.4.4
NTP=
SIP=
DOMAINS=
ROUTE_DOMAINS=
LLMNR=yes
MDNS=no
"###;

fn return_expected_interface_state() -> InterfaceState {
    InterfaceState {
        address_state: AddressState::routable,
        admin_state: AdminState::configured,
        carrier_state: CarrierState::carrier,
        ipv4_address_state: AddressState::degraded,
        ipv6_address_state: AddressState::routable,
        name: "eth0".to_string(),
        network_file: "/etc/systemd/network/69-eno4.network".to_string(),
        oper_state: OperState::routable,
        required_for_online: BoolState::True,
    }
}

fn return_mock_int_name_hashmap() -> Option<Vec<(i32, String)>> {
    Some(vec![(2, String::from("eth0")), (69, String::from("eth69"))])
}

#[test]
fn test_parse_interface_stats() {
    assert_eq!(
        return_expected_interface_state(),
        parse_interface_stats(
            MOCK_INTERFACE_STATE.to_string(),
            2,
            &return_mock_int_name_hashmap().expect("Failed to get a mock int name hashmap"),
        )
        .expect("Failed to parse interface stats"),
    );
}

#[test]
fn test_parse_interface_stats_json() {
    // 'name' stays empty without an interface id that names a link; the
    // numbers are those the JSON output carries.
    let stats = parse_interface_stats(MOCK_INTERFACE_STATE.to_string(), 0, &vec![]).unwrap();
    assert_eq!(stats.name, "");
    assert_eq!(
        (
            stats.address_state.as_u64(),
            stats.admin_state.as_u64(),
            stats.carrier_state.as_u64(),
            stats.ipv4_address_state.as_u64(),
            stats.ipv6_address_state.as_u64(),
            stats.oper_state.as_u64(),
            stats.required_for_online.as_u64()
        ),
        (3, 4, 5, 2, 3, 9, 1)
    );
    assert_eq!(stats.network_file, "/etc/systemd/network/69-eno4.network");
}

#[test]
fn test_parse_interface_state_files() {
    let expected_files =
        NetworkdState { interfaces_state: vec![return_expected_interface_state()], managed_interfaces: 1 };
    // The file name is the interface index.
    let files = vec![("2".to_string(), format!("{}\n", MOCK_INTERFACE_STATE))];
    assert_eq!(expected_files, parse_interface_state_files(files, &return_mock_int_name_hashmap().unwrap()));
}

#[test]
fn test_enums_to_ints() {
    assert_eq!(3, AddressState::routable.as_u64());
    assert_eq!(4, CarrierState::degraded_carrier.as_u64());
    assert_eq!(1, BoolState::True.as_u64());
    assert_eq!(0, BoolState::False.as_u64());
}

#[test]
fn state_names() {
    assert_eq!(parse_address_state("routable"), AddressState::routable);
    assert_eq!(parse_address_state("bogus"), AddressState::unknown);
    assert_eq!(parse_admin_state("linger"), AdminState::linger);
    assert_eq!(parse_bool_state("no"), BoolState::False);
    assert_eq!(parse_bool_state("maybe"), BoolState::unknown);
    assert_eq!(parse_carrier_state("no-carrier"), CarrierState::no_carrier);
    assert_eq!(parse_oper_state("enslaved"), OperState::enslaved);
}

fn iface(index: i64, name: &str, admin: &str, oper: &str) -> Interface {
    Interface {
        index,
        name: name.to_string(),
        administrative_state: admin.to_string(),
        operational_state: oper.to_string(),
        carrier_state: "carrier".to_string(),
        address_state: "routable".to_string(),
        ipv4_address_state: "degraded".to_string(),
        ipv6_address_state: "routable".to_string(),
        online_state: Some("online".to_string()),
        network_file: Some("/etc/systemd/network/69-eno4.network".to_string()),
        required_for_online: Some(true),
    }
}

#[test]
fn test_map_interface_full() {
    let state = map_interface(&iface(2, "eth0", "configured", "routable"));
    assert_eq!(state.name, "eth0");
    assert_eq!(state.admin_state, AdminState::configured);
    assert_eq!(state.oper_state, OperState::routable);
    assert_eq!(state.carrier_state, CarrierState::carrier);
    assert_eq!(state.address_state, AddressState::routable);
    assert_eq!(state.ipv4_address_state, AddressState::degraded);
    assert_eq!(state.ipv6_address_state, AddressState::routable);
    assert_eq!(state.required_for_online, BoolState::True);
    assert_eq!(state.network_file, "/etc/systemd/network/69-eno4.network".to_string());
}

#[test]
fn test_map_interface_unknown_states() {
    let iface = Interface {
        index: 3,
        name: "wg0".to_string(),
        administrative_state: "initialized".to_string(),
        operational_state: "unknown-oper".to_string(),
        carrier_state: "no-carrier".to_string(),
        address_state: "off".to_string(),
        ipv4_address_state: "off".to_string(),
        ipv6_address_state: "off".to_string(),
        online_state: None,
        network_file: Some("/etc/systemd/network/wg0.network".to_string()),
        required_for_online: Some(false),
    };
    let state = map_interface(&iface);
    assert_eq!(state.admin_state, AdminState::unknown);
    assert_eq!(state.oper_state, OperState::unknown);
    assert_eq!(state.carrier_state, CarrierState::no_carrier);
    assert_eq!(state.address_state, AddressState::off);
    assert_eq!(state.required_for_online, BoolState::False);
}

#[test]
fn test_map_interface_no_required_for_online() {
    let iface = Interface {
        index: 1,
        name: "lo".to_string(),
        administrative_state: "unmanaged".to_string(),
        operational_state: "carrier".to_string(),
        carrier_state: "carrier".to_string(),
        address_state: "degraded".to_string(),
        ipv4_address_state: "degraded".to_string(),
        ipv6_address_state: "degraded".to_string(),
        online_state: None,
        network_file: None,
        required_for_online: None,
    };
    let state = map_interface(&iface);
    assert_eq!(state.required_for_online, BoolState::unknown);
    assert_eq!(state.network_file, "");
}

#[test]
fn described_links() {
    let out = DescribeOutput {
        interfaces: Some(vec![iface(1, "lo", "unmanaged", "carrier"), iface(2, "eth0", "configured", "routable")]),
    };
    let state = networkd_state_from_describe(&out);
    assert_eq!(state.managed_interfaces, state.interfaces_state.len() as u64);
    assert!(state.interfaces_state.iter().any(|s| s.name == "eth0"));
    assert_eq!(networkd_state_from_describe(&DescribeOutput { interfaces: None }).managed_interfaces, 0);
}
