//! The reply of `io.systemd.Network.Describe`, reduced to the fields the
//! networkd collector reads.
use vstd::prelude::*;

verus! {

/// Where systemd-networkd serves `io.systemd.Network`.
pub const NETWORK_SOCKET_PATH: &'static str = "/run/systemd/netif/io.systemd.Network";

/// Output parameters of the `Describe` method.
#[derive(Debug, Clone, PartialEq, Eq)]
pub struct DescribeOutput {
    pub interfaces: Option<Vec<Interface>>,
}

/// One link as networkd describes it.
#[derive(Debug, Clone, PartialEq, Eq)]
pub struct Interface {
    pub index: i64,
    pub name: String,
    pub administrative_state: String,
    pub operational_state: String,
    pub carrier_state: String,
    pub address_state: String,
    pub ipv4_address_state: String,
    pub ipv6_address_state: String,
    pub online_state: Option<String>,
    pub network_file: Option<String>,
    pub required_for_online: Option<bool>,
}

/// Errors of the `io.systemd.Network` interface.
#[derive(Debug, Clone, Copy, PartialEq, Eq, Structural)]
pub enum NetworkError {
    NoSuchInterface,
}

impl NetworkError {
    /// The error's message.
    pub fn message(&self) -> (r: &'static str)
        ensures
            r@ == "No such interface"@,
    {
        "No such interface"
    }
}

} // verus!
