//! The reply of `io.systemd.Manager.Describe`, reduced to the fields the
//! system collector reads.
use vstd::prelude::*;

verus! {

/// Where PID 1 serves `io.systemd.Manager`.
pub const MANAGER_SOCKET_PATH: &'static str = "/run/systemd/io.systemd.Manager";

/// Output parameters of the `Describe` method.
#[derive(Debug, Clone, PartialEq, Eq)]
pub struct DescribeOutput {
    pub runtime: Option<ManagerRuntime>,
}

/// Runtime state of the manager.
#[derive(Debug, Clone, PartialEq, Eq)]
pub struct ManagerRuntime {
    /// The version string, as the D-Bus `Version` property has it.
    pub version: Option<String>,
    /// The system state, as the D-Bus `SystemState` property has it.
    pub system_state: Option<String>,
}

/// Errors of the `io.systemd.Manager` interface.
#[derive(Debug, Clone, Copy, PartialEq, Eq, Structural)]
pub enum ManagerError {
    RateLimitReached,
}

impl ManagerError {
    /// The error's message.
    pub fn message(&self) -> (r: &'static str)
        ensures
            r@ == "Rate limit reached"@,
    {
        "Rate limit reached"
    }
}

} // verus!
