use monitord::varlink::machine_connector::{
    errno_byte, is_permission_denied, parse_leader_pid, MachineConnectorError, MachineSocket, EIO,
};

#[test]
fn test_machine_socket_byte_roundtrip() {
    for socket in MachineSocket::all() {
        assert_eq!(MachineSocket::from_byte(socket.as_byte()), Some(socket));
    }
    assert_eq!(MachineSocket::from_byte(0), None);
    assert_eq!(MachineSocket::from_byte(42), None);
}

#[test]
fn test_machine_socket_paths() {
    assert_eq!(MachineSocket::Manager.path(), "/run/systemd/io.systemd.Manager");
    assert_eq!(MachineSocket::Metrics.path(), "/run/systemd/report/io.systemd.Manager");
    assert_eq!(MachineSocket::Network.path(), "/run/systemd/netif/io.systemd.Network");
}

#[test]
fn permission_errors_are_told_apart() {
    assert!(is_permission_denied(&MachineConnectorError::PermissionDenied { leader_pid: 1, errno: Some(1) }));
    assert!(!is_permission_denied(&MachineConnectorError::Io { leader_pid: 1, errno: Some(2) }));
    assert!(!is_permission_denied(&MachineConnectorError::Unsupported));
}

#[test]
fn status_bytes_of_errors() {
    assert_eq!(errno_byte(Some(2)), 2);
    assert_eq!(errno_byte(Some(0)), EIO);
    assert_eq!(errno_byte(Some(300)), EIO);
    assert_eq!(errno_byte(None), EIO);
}

#[test]
fn helper_arguments() {
    assert_eq!(parse_leader_pid(&vec!["4242".to_string()]), Some(4242));
    assert_eq!(parse_leader_pid(&vec!["x".to_string()]), None);
    assert_eq!(parse_leader_pid(&vec![]), None);
}
