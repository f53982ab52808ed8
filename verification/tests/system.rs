use monitord::system::{parse_system_state, MonitordSystemError, SystemdSystemState, SystemdVersion};
use monitord::varlink::manager::{DescribeOutput, ManagerRuntime};
use monitord::varlink_system::{system_state_from_describe, version_from_describe, DescribeError};

#[test]
fn test_display_struct() {
    assert_eq!(SystemdSystemState::running.name().to_string(), String::from("running"),)
}

#[test]
fn test_parsing_systemd_versions() -> Result<(), String> {
    let parsed: SystemdVersion = SystemdVersion::try_from("969.1.69.fc69".to_string()).map_err(|e| e.message())?;
    assert_eq!(SystemdVersion::new(969, String::from("1"), Some(69), String::from("fc69")), parsed);

    // No revision
    let parsed: SystemdVersion = SystemdVersion::try_from("969.1.fc69".to_string()).map_err(|e| e.message())?;
    assert_eq!(SystemdVersion::new(969, String::from("1"), None, String::from("fc69")), parsed);

    // #bigCompany strings
    let parsed: SystemdVersion =
        SystemdVersion::try_from(String::from("969.6-9.9.hs+fb.el9")).map_err(|e| e.message())?;
    assert_eq!(SystemdVersion::new(969, String::from("6-9"), Some(9), String::from("hs+fb.el9")), parsed);

    let parsed: SystemdVersion =
        SystemdVersion::try_from(String::from("v299.6-9.9.hs+fb.el9")).map_err(|e| e.message())?;
    assert_eq!(SystemdVersion::new(299, String::from("6-9"), Some(9), String::from("hs+fb.el9")), parsed);

    Ok(())
}

#[test]
fn test_version_string_parses_like_the_dbus_property() {
    let version = SystemdVersion::try_from("262~rc3-1.fc46".to_string()).expect("version should parse");
    assert_eq!(version, SystemdVersion::new(262, "rc3-1".to_string(), None, "fc46".to_string()));
}

#[test]
fn version_errors() {
    assert!(matches!(
        SystemdVersion::try_from("abc.1.fc69".to_string()),
        Err(MonitordSystemError::BadMajorVersion { .. })
    ));
    assert_eq!(SystemdVersion::try_from("969".to_string()), Err(MonitordSystemError::NoMinorVersion));
}

#[test]
fn version_string_round_trip() {
    let v = SystemdVersion::new(255, "4".to_string(), Some(1), "fc40".to_string());
    assert_eq!(v.to_version_string(), "255.4.1.fc40");
    assert_eq!(SystemdVersion::try_from(v.to_version_string()), Ok(v));
}

#[test]
fn system_states_by_name() {
    assert_eq!(parse_system_state("running"), SystemdSystemState::running);
    assert_eq!(parse_system_state("degraded"), SystemdSystemState::degraded);
    assert_eq!(parse_system_state("nonsense"), SystemdSystemState::unknown);
    assert_eq!(SystemdSystemState::degraded.as_u64(), 4);
    assert_eq!(SystemdSystemState::default(), SystemdSystemState::unknown);
}

#[test]
fn describe_replies() {
    let reply = DescribeOutput {
        runtime: Some(ManagerRuntime {
            version: Some("262~rc3-1.fc46".to_string()),
            system_state: Some("running".to_string()),
        }),
    };
    assert_eq!(system_state_from_describe(&reply), Ok(SystemdSystemState::running));
    assert_eq!(
        version_from_describe(&reply),
        Ok(SystemdVersion::new(262, "rc3-1".to_string(), None, "fc46".to_string()))
    );
    let empty = DescribeOutput { runtime: Some(ManagerRuntime { version: None, system_state: None }) };
    assert_eq!(system_state_from_describe(&empty), Err(DescribeError::NoSystemState));
    assert_eq!(version_from_describe(&empty), Err(DescribeError::NoVersion));
    let none = DescribeOutput { runtime: None };
    assert_eq!(system_state_from_describe(&none), Err(DescribeError::NoRuntime));
}
