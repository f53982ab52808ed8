use monitord::unit_constants::{is_unit_unhealthy, SystemdUnitActiveState, SystemdUnitLoadState};

#[test]
fn test_is_unit_unhealthy() {
    assert!(!is_unit_unhealthy(SystemdUnitActiveState::active, SystemdUnitLoadState::loaded));
    assert!(is_unit_unhealthy(SystemdUnitActiveState::activating, SystemdUnitLoadState::loaded));
    assert!(!is_unit_unhealthy(SystemdUnitActiveState::activating, SystemdUnitLoadState::masked));
    assert!(is_unit_unhealthy(SystemdUnitActiveState::deactivating, SystemdUnitLoadState::not_found));
    assert!(is_unit_unhealthy(SystemdUnitActiveState::active, SystemdUnitLoadState::error,));
}

#[test]
fn unit_constants_test_iterators() {
    assert!(SystemdUnitActiveState::all().len() > 0);
    assert!(SystemdUnitLoadState::all().len() > 0);
}

#[test]
fn test_active_state_from_str() {
    assert_eq!(SystemdUnitActiveState::from_name("unknown").unwrap(), SystemdUnitActiveState::unknown);
    assert_eq!(SystemdUnitActiveState::from_name("active").unwrap(), SystemdUnitActiveState::active);
    assert_eq!(SystemdUnitActiveState::from_name("reloading").unwrap(), SystemdUnitActiveState::reloading);
    assert_eq!(SystemdUnitActiveState::from_name("inactive").unwrap(), SystemdUnitActiveState::inactive);
    assert_eq!(SystemdUnitActiveState::from_name("failed").unwrap(), SystemdUnitActiveState::failed);
    assert_eq!(SystemdUnitActiveState::from_name("activating").unwrap(), SystemdUnitActiveState::activating);
    assert_eq!(SystemdUnitActiveState::from_name("deactivating").unwrap(), SystemdUnitActiveState::deactivating);
}

#[test]
fn test_active_state_from_str_invalid() {
    assert!(SystemdUnitActiveState::from_name("invalid").is_none());
    assert!(SystemdUnitActiveState::from_name("").is_none());
    assert!(SystemdUnitActiveState::from_name("ACTIVE").is_none());
}

#[test]
fn test_load_state_from_str() {
    assert_eq!(SystemdUnitLoadState::from_name("unknown").unwrap(), SystemdUnitLoadState::unknown);
    assert_eq!(SystemdUnitLoadState::from_name("loaded").unwrap(), SystemdUnitLoadState::loaded);
    assert_eq!(SystemdUnitLoadState::from_name("error").unwrap(), SystemdUnitLoadState::error);
    assert_eq!(SystemdUnitLoadState::from_name("masked").unwrap(), SystemdUnitLoadState::masked);
    assert_eq!(SystemdUnitLoadState::from_name("not_found").unwrap(), SystemdUnitLoadState::not_found);
}

#[test]
fn test_load_state_from_str_invalid() {
    assert!(SystemdUnitLoadState::from_name("invalid").is_none());
    assert!(SystemdUnitLoadState::from_name("").is_none());
    assert!(SystemdUnitLoadState::from_name("LOADED").is_none());
}

#[test]
fn test_active_state_display() {
    assert_eq!(SystemdUnitActiveState::unknown.name().to_string(), "unknown");
    assert_eq!(SystemdUnitActiveState::active.name().to_string(), "active");
    assert_eq!(SystemdUnitActiveState::reloading.name().to_string(), "reloading");
    assert_eq!(SystemdUnitActiveState::inactive.name().to_string(), "inactive");
    assert_eq!(SystemdUnitActiveState::failed.name().to_string(), "failed");
    assert_eq!(SystemdUnitActiveState::activating.name().to_string(), "activating");
    assert_eq!(SystemdUnitActiveState::deactivating.name().to_string(), "deactivating");
}

#[test]
fn test_load_state_display() {
    assert_eq!(SystemdUnitLoadState::unknown.name().to_string(), "unknown");
    assert_eq!(SystemdUnitLoadState::loaded.name().to_string(), "loaded");
    assert_eq!(SystemdUnitLoadState::error.name().to_string(), "error");
    assert_eq!(SystemdUnitLoadState::masked.name().to_string(), "masked");
    assert_eq!(SystemdUnitLoadState::not_found.name().to_string(), "not_found");
}

#[test]
fn test_active_state_default() {
    let state: SystemdUnitActiveState = Default::default();
    assert_eq!(state, SystemdUnitActiveState::unknown);
}

#[test]
fn test_load_state_default() {
    let state: SystemdUnitLoadState = Default::default();
    assert_eq!(state, SystemdUnitLoadState::unknown);
}

#[test]
fn test_active_state_clone() {
    let state = SystemdUnitActiveState::active;
    let cloned = state.clone();
    assert_eq!(state, cloned);
}

#[test]
fn test_load_state_clone() {
    let state = SystemdUnitLoadState::loaded;
    let cloned = state.clone();
    assert_eq!(state, cloned);
}

#[test]
fn test_active_state_debug() {
    let state = SystemdUnitActiveState::active;
    let debug_str = format!("{:?}", state);
    assert!(debug_str.contains("active"));
}

#[test]
fn test_load_state_debug() {
    let state = SystemdUnitLoadState::loaded;
    let debug_str = format!("{:?}", state);
    assert!(debug_str.contains("loaded"));
}

#[test]
fn test_active_state_equality() {
    assert_eq!(SystemdUnitActiveState::active, SystemdUnitActiveState::active);
    assert_ne!(SystemdUnitActiveState::active, SystemdUnitActiveState::inactive);
}

#[test]
fn test_load_state_equality() {
    assert_eq!(SystemdUnitLoadState::loaded, SystemdUnitLoadState::loaded);
    assert_ne!(SystemdUnitLoadState::loaded, SystemdUnitLoadState::masked);
}

#[test]
fn test_active_state_int_enum() {
    assert_eq!(SystemdUnitActiveState::unknown.to_u8(), 0);
    assert_eq!(SystemdUnitActiveState::active.to_u8(), 1);
    assert_eq!(SystemdUnitActiveState::reloading.to_u8(), 2);
    assert_eq!(SystemdUnitActiveState::inactive.to_u8(), 3);
    assert_eq!(SystemdUnitActiveState::failed.to_u8(), 4);
    assert_eq!(SystemdUnitActiveState::activating.to_u8(), 5);
    assert_eq!(SystemdUnitActiveState::deactivating.to_u8(), 6);
}

#[test]
fn test_load_state_int_enum() {
    assert_eq!(SystemdUnitLoadState::unknown.to_u8(), 0);
    assert_eq!(SystemdUnitLoadState::loaded.to_u8(), 1);
    assert_eq!(SystemdUnitLoadState::error.to_u8(), 2);
    assert_eq!(SystemdUnitLoadState::masked.to_u8(), 3);
    assert_eq!(SystemdUnitLoadState::not_found.to_u8(), 4);
}

#[test]
fn test_active_state_from_int() {
    assert_eq!(SystemdUnitActiveState::from_u8(0).unwrap(), SystemdUnitActiveState::unknown);
    assert_eq!(SystemdUnitActiveState::from_u8(1).unwrap(), SystemdUnitActiveState::active);
    assert_eq!(SystemdUnitActiveState::from_u8(2).unwrap(), SystemdUnitActiveState::reloading);
    assert_eq!(SystemdUnitActiveState::from_u8(3).unwrap(), SystemdUnitActiveState::inactive);
    assert_eq!(SystemdUnitActiveState::from_u8(4).unwrap(), SystemdUnitActiveState::failed);
    assert_eq!(SystemdUnitActiveState::from_u8(5).unwrap(), SystemdUnitActiveState::activating);
    assert_eq!(SystemdUnitActiveState::from_u8(6).unwrap(), SystemdUnitActiveState::deactivating);
}

#[test]
fn test_load_state_from_int() {
    assert_eq!(SystemdUnitLoadState::from_u8(0).unwrap(), SystemdUnitLoadState::unknown);
    assert_eq!(SystemdUnitLoadState::from_u8(1).unwrap(), SystemdUnitLoadState::loaded);
    assert_eq!(SystemdUnitLoadState::from_u8(2).unwrap(), SystemdUnitLoadState::error);
    assert_eq!(SystemdUnitLoadState::from_u8(3).unwrap(), SystemdUnitLoadState::masked);
    assert_eq!(SystemdUnitLoadState::from_u8(4).unwrap(), SystemdUnitLoadState::not_found);
}

#[test]
fn test_active_state_from_int_invalid() {
    assert!(SystemdUnitActiveState::from_u8(255).is_none());
    assert!(SystemdUnitActiveState::from_u8(100).is_none());
}

#[test]
fn test_load_state_from_int_invalid() {
    assert!(SystemdUnitLoadState::from_u8(255).is_none());
    assert!(SystemdUnitLoadState::from_u8(100).is_none());
}

#[test]
fn test_is_unit_unhealthy_all_combinations() {
    assert!(is_unit_unhealthy(SystemdUnitActiveState::unknown, SystemdUnitLoadState::unknown));
    assert!(is_unit_unhealthy(SystemdUnitActiveState::active, SystemdUnitLoadState::unknown));
    assert!(is_unit_unhealthy(SystemdUnitActiveState::reloading, SystemdUnitLoadState::unknown));
    assert!(is_unit_unhealthy(SystemdUnitActiveState::inactive, SystemdUnitLoadState::unknown));
    assert!(is_unit_unhealthy(SystemdUnitActiveState::failed, SystemdUnitLoadState::unknown));
    assert!(is_unit_unhealthy(SystemdUnitActiveState::activating, SystemdUnitLoadState::unknown));
    assert!(is_unit_unhealthy(SystemdUnitActiveState::deactivating, SystemdUnitLoadState::unknown));
    assert!(is_unit_unhealthy(SystemdUnitActiveState::unknown, SystemdUnitLoadState::loaded));
    assert!(!is_unit_unhealthy(SystemdUnitActiveState::active, SystemdUnitLoadState::loaded));
    assert!(is_unit_unhealthy(SystemdUnitActiveState::reloading, SystemdUnitLoadState::loaded));
    assert!(is_unit_unhealthy(SystemdUnitActiveState::inactive, SystemdUnitLoadState::loaded));
    assert!(is_unit_unhealthy(SystemdUnitActiveState::failed, SystemdUnitLoadState::loaded));
    assert!(is_unit_unhealthy(SystemdUnitActiveState::activating, SystemdUnitLoadState::loaded));
    assert!(is_unit_unhealthy(SystemdUnitActiveState::deactivating, SystemdUnitLoadState::loaded));
    assert!(is_unit_unhealthy(SystemdUnitActiveState::unknown, SystemdUnitLoadState::error));
    assert!(is_unit_unhealthy(SystemdUnitActiveState::active, SystemdUnitLoadState::error));
    assert!(is_unit_unhealthy(SystemdUnitActiveState::reloading, SystemdUnitLoadState::error));
    assert!(is_unit_unhealthy(SystemdUnitActiveState::inactive, SystemdUnitLoadState::error));
    assert!(is_unit_unhealthy(SystemdUnitActiveState::failed, SystemdUnitLoadState::error));
    assert!(is_unit_unhealthy(SystemdUnitActiveState::activating, SystemdUnitLoadState::error));
    assert!(is_unit_unhealthy(SystemdUnitActiveState::deactivating, SystemdUnitLoadState::error));
    assert!(!is_unit_unhealthy(SystemdUnitActiveState::unknown, SystemdUnitLoadState::masked));
    assert!(!is_unit_unhealthy(SystemdUnitActiveState::active, SystemdUnitLoadState::masked));
    assert!(!is_unit_unhealthy(SystemdUnitActiveState::reloading, SystemdUnitLoadState::masked));
    assert!(!is_unit_unhealthy(SystemdUnitActiveState::inactive, SystemdUnitLoadState::masked));
    assert!(!is_unit_unhealthy(SystemdUnitActiveState::failed, SystemdUnitLoadState::masked));
    assert!(!is_unit_unhealthy(SystemdUnitActiveState::activating, SystemdUnitLoadState::masked));
    assert!(!is_unit_unhealthy(SystemdUnitActiveState::deactivating, SystemdUnitLoadState::masked));
    assert!(is_unit_unhealthy(SystemdUnitActiveState::unknown, SystemdUnitLoadState::not_found));
    assert!(is_unit_unhealthy(SystemdUnitActiveState::active, SystemdUnitLoadState::not_found));
    assert!(is_unit_unhealthy(SystemdUnitActiveState::reloading, SystemdUnitLoadState::not_found));
    assert!(is_unit_unhealthy(SystemdUnitActiveState::inactive, SystemdUnitLoadState::not_found));
    assert!(is_unit_unhealthy(SystemdUnitActiveState::failed, SystemdUnitLoadState::not_found));
    assert!(is_unit_unhealthy(SystemdUnitActiveState::activating, SystemdUnitLoadState::not_found));
    assert!(is_unit_unhealthy(SystemdUnitActiveState::deactivating, SystemdUnitLoadState::not_found));
}

// The JSON output carries each state as its number.
#[test]
fn test_active_state_serialization() {
    let state = SystemdUnitActiveState::active;
    let serialized = state.to_u8().to_string();
    assert_eq!(serialized, "1");

    let deserialized = SystemdUnitActiveState::from_u8(serialized.parse().unwrap()).unwrap();
    assert_eq!(deserialized, state);
}

#[test]
fn test_load_state_serialization() {
    let state = SystemdUnitLoadState::loaded;
    let serialized = state.to_u8().to_string();
    assert_eq!(serialized, "1");

    let deserialized = SystemdUnitLoadState::from_u8(serialized.parse().unwrap()).unwrap();
    assert_eq!(deserialized, state);
}

#[test]
fn test_active_state_all_variants_serialization() {
    for state in SystemdUnitActiveState::all() {
        let serialized = state.to_u8();
        let deserialized = SystemdUnitActiveState::from_u8(serialized).unwrap();
        assert_eq!(deserialized, state);
    }
}

#[test]
fn test_load_state_all_variants_serialization() {
    for state in SystemdUnitLoadState::all() {
        let serialized = state.to_u8();
        let deserialized = SystemdUnitLoadState::from_u8(serialized).unwrap();
        assert_eq!(deserialized, state);
    }
}
