//! System state and version from `io.systemd.Manager.Describe`, whose one
//! reply serves both collectors.
use vstd::prelude::*;

use crate::system::{
    parse_system_state, system_state_of, version_of, MonitordSystemError, SystemdSystemState,
    SystemdVersion,
};
use crate::varlink::manager::DescribeOutput;

verus! {

/// Why a `Describe` reply gave no state or version.
#[derive(Clone, Debug, PartialEq, Eq)]
pub enum DescribeError {
    /// The reply has no runtime section.
    NoRuntime,
    /// The runtime section has no `SystemState`.
    NoSystemState,
    /// The runtime section has no `Version`.
    NoVersion,
    /// The version string could not be read.
    BadVersion(MonitordSystemError),
}

/// The system state a `Describe` reply reports.
pub fn system_state_from_describe(output: &DescribeOutput) -> (r: Result<SystemdSystemState, DescribeError>)
    ensures
        match output.runtime {
            None => r == Err::<SystemdSystemState, DescribeError>(DescribeError::NoRuntime),
            Some(rt) => match rt.system_state {
                None => r == Err::<SystemdSystemState, DescribeError>(DescribeError::NoSystemState),
                Some(st) => r == Ok::<SystemdSystemState, DescribeError>(system_state_of(st@)),
            },
        },
{
    match &output.runtime {
        None => Err(DescribeError::NoRuntime),
        Some(rt) => match &rt.system_state {
            None => Err(DescribeError::NoSystemState),
            Some(st) => Ok(parse_system_state(st.as_str())),
        },
    }
}

/// The systemd version a `Describe` reply reports, read as the D-Bus
/// `Version` property is.
pub fn version_from_describe(output: &DescribeOutput) -> (r: Result<SystemdVersion, DescribeError>)
    ensures
        match output.runtime {
            None => r matches Err(DescribeError::NoRuntime),
            Some(rt) => match rt.version {
                None => r matches Err(DescribeError::NoVersion),
                Some(v) => match r {
                    Ok(parsed) => version_of(v@) == Ok::<(u32, Seq<char>, Option<u32>, Seq<char>), ()>(
                        (parsed.major(), parsed.minor()@, parsed.revision(), parsed.os()@),
                    ),
                    Err(e) => e is BadVersion && version_of(v@) is Err,
                },
            },
        },
{
    match &output.runtime {
        None => Err(DescribeError::NoRuntime),
        Some(rt) => match &rt.version {
            None => Err(DescribeError::NoVersion),
            Some(v) => match SystemdVersion::try_from(v.clone()) {
                Ok(parsed) => Ok(parsed),
                Err(e) => Err(DescribeError::BadVersion(e)),
            },
        },
    }
}

} // verus!
