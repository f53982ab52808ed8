//! The sockets that a machine connector may reach inside a machine, the
//! one-byte codes they are requested by, and the connector's errors.
//!
//! The connector itself (a helper process inside the machine's PID
//! namespace, passing connected sockets back) lives outside the library.
use vstd::prelude::*;

verus! {

/// Hidden first argument that makes the program run as a machine connector
/// helper instead of a collector.
pub const HELPER_ARG: &'static str = "__monitord-machine-connector";

/// Where PID 1 serves its metrics report.
pub const METRICS_SOCKET_PATH: &'static str = "/run/systemd/report/io.systemd.Manager";

/// The machine sockets a connector may connect to: a fixed allowlist, sent
/// as one byte rather than as a path.
#[derive(Clone, Copy, Debug, PartialEq, Eq, Structural)]
pub enum MachineSocket {
    /// PID 1's `io.systemd.Manager`, `io.systemd.Unit` and `io.systemd.Job`.
    Manager,
    /// PID 1's `io.systemd.Metrics` report socket.
    Metrics,
    /// systemd-networkd's `io.systemd.Network`.
    Network,
}

/// The byte a socket is requested by.
pub open spec fn socket_byte(s: MachineSocket) -> u8 {
    match s {
        MachineSocket::Manager => 1,
        MachineSocket::Metrics => 2,
        MachineSocket::Network => 3,
    }
}

/// The socket's path inside the machine.
pub open spec fn socket_path(s: MachineSocket) -> Seq<char> {
    match s {
        MachineSocket::Manager => crate::varlink::manager::MANAGER_SOCKET_PATH@,
        MachineSocket::Metrics => METRICS_SOCKET_PATH@,
        MachineSocket::Network => crate::varlink::network::NETWORK_SOCKET_PATH@,
    }
}

impl MachineSocket {
    /// Every socket, in byte order.
    pub fn all() -> (r: [MachineSocket; 3])
        ensures
            r@ == seq![MachineSocket::Manager, MachineSocket::Metrics, MachineSocket::Network],
    {
        [MachineSocket::Manager, MachineSocket::Metrics, MachineSocket::Network]
    }

    /// The byte the socket is requested by.
    pub fn as_byte(self) -> (r: u8)
        ensures
            r == socket_byte(self),
    {
        match self {
            MachineSocket::Manager => 1,
            MachineSocket::Metrics => 2,
            MachineSocket::Network => 3,
        }
    }

    /// Socket path inside the machine.
    pub fn path(self) -> (r: &'static str)
        ensures
            r@ == socket_path(self),
    {
        match self {
            MachineSocket::Manager => crate::varlink::manager::MANAGER_SOCKET_PATH,
            MachineSocket::Metrics => METRICS_SOCKET_PATH,
            MachineSocket::Network => crate::varlink::network::NETWORK_SOCKET_PATH,
        }
    }

    /// The socket a request byte names; `None` for any other byte.
    pub fn from_byte(byte: u8) -> (r: Option<Self>)
        ensures
            match r {
                Some(s) => socket_byte(s) == byte,
                None => forall|s: MachineSocket| socket_byte(s) != byte,
            },
    {
        let all = Self::all();
        let mut i: usize = 0;
        while i < 3
            invariant
                i <= 3,
                all@ == seq![MachineSocket::Manager, MachineSocket::Metrics, MachineSocket::Network],
                forall|j: int| 0 <= j < i ==> socket_byte(#[trigger] all@[j]) != byte,
            decreases 3 - i,
        {
            if all[i].as_byte() == byte {
                return Some(all[i]);
            }
            i = i + 1;
        }
        proof {
            assert forall|s: MachineSocket| socket_byte(s) != byte by {
                match s {
                    MachineSocket::Manager => assert(socket_byte(all@[0]) != byte),
                    MachineSocket::Metrics => assert(socket_byte(all@[1]) != byte),
                    MachineSocket::Network => assert(socket_byte(all@[2]) != byte),
                }
            }
        }
        None
    }
}

/// Every socket's byte names it back.
pub proof fn socket_byte_round_trip(s: MachineSocket, t: MachineSocket)
    ensures
        socket_byte(s) == socket_byte(t) ==> s == t,
        1 <= socket_byte(s) <= 3,
{
}

/// Errors of a machine connector. An operating system error is carried as
/// its errno, when it has one.
#[derive(Clone, Copy, Debug, PartialEq, Eq, Structural)]
pub enum MachineConnectorError {
    /// Joining the machine's PID namespace was refused: the program lacks
    /// the privileges, which will not change while it runs.
    PermissionDenied { leader_pid: u32, errno: Option<i32> },
    Io { leader_pid: u32, errno: Option<i32> },
    Unsupported,
}

/// Whether `err` means machine namespaces cannot be joined at all.
pub fn is_permission_denied(err: &MachineConnectorError) -> (r: bool)
    ensures
        r == (*err is PermissionDenied),
{
    match err {
        MachineConnectorError::PermissionDenied { .. } => true,
        _ => false,
    }
}

/// `EIO`, the errno reported for an error that has no usable one.
pub const EIO: u8 = 5;

/// The status byte a helper reports for an error: its errno when that is
/// between 1 and 255, `EIO` otherwise.
pub open spec fn errno_status(errno: Option<i32>) -> u8 {
    match errno {
        Some(e) => if 0 < e <= 255 {
            e as u8
        } else {
            EIO
        },
        None => EIO,
    }
}

pub fn errno_byte(errno: Option<i32>) -> (r: u8)
    ensures
        r == errno_status(errno),
        r != 0,
{
    match errno {
        Some(e) => {
            if 0 < e && e <= 255 {
                e as u8
            } else {
                EIO
            }
        },
        None => EIO,
    }
}

/// The machine leader PID a helper is started with: its first argument,
/// read as a `u32`.
pub fn parse_leader_pid(args: &Vec<String>) -> (r: Option<u32>)
    ensures
        r == (if args.len() == 0 {
            None
        } else {
            crate::text::parse_u32_spec(args@[0]@)
        }),
{
    if args.len() == 0 {
        return None;
    }
    let v = crate::text::str_chars(args[0].as_str());
    let r = crate::text::parse_u32_range(&v, 0, v.len());
    proof {
        assert(v@.subrange(0, v@.len() as int) =~= v@);
    }
    r
}

} // verus!
