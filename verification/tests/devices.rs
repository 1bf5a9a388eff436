use captive_portal::device::device_kind;
use captive_portal::device::device_state;
use captive_portal::device::is_activated;
use captive_portal::device::is_wifi_device;
use captive_portal::device::network_connected;
use captive_portal::device::select_wifi_device;
use captive_portal::device::DeviceKind;
use captive_portal::device::DeviceState;
use captive_portal::error::SetupError;

#[test]
fn device_kind_of_each_known_code() {
    assert_eq!(device_kind(Some(2)), DeviceKind::WiFi);
    assert_eq!(device_kind(Some(14)), DeviceKind::Generic);
    assert_eq!(device_kind(Some(1)), DeviceKind::Other);
    for code in 5..=20u32 {
        if code != 14 {
            assert_eq!(device_kind(Some(code)), DeviceKind::Other);
        }
    }
}

#[test]
fn device_kind_of_unknown_code_is_generic() {
    assert_eq!(device_kind(Some(0)), DeviceKind::Generic);
    assert_eq!(device_kind(Some(3)), DeviceKind::Generic);
    assert_eq!(device_kind(Some(4)), DeviceKind::Generic);
    assert_eq!(device_kind(Some(21)), DeviceKind::Generic);
    assert_eq!(device_kind(Some(u32::MAX)), DeviceKind::Generic);
}

#[test]
fn device_kind_of_failed_reading_is_generic() {
    assert_eq!(device_kind(None), DeviceKind::Generic);
}

#[test]
fn device_state_of_each_known_code() {
    assert_eq!(device_state(Some(0)), DeviceState::Unknown);
    assert_eq!(device_state(Some(100)), DeviceState::Activated);
    for code in [10u32, 20, 30, 40, 50, 60, 70, 80, 90, 110, 120] {
        assert_eq!(device_state(Some(code)), DeviceState::Other);
    }
}

#[test]
fn device_state_of_unknown_code_is_unknown() {
    assert_eq!(device_state(Some(1)), DeviceState::Unknown);
    assert_eq!(device_state(Some(99)), DeviceState::Unknown);
    assert_eq!(device_state(Some(101)), DeviceState::Unknown);
    assert_eq!(device_state(Some(130)), DeviceState::Unknown);
    assert_eq!(device_state(Some(u32::MAX)), DeviceState::Unknown);
}

#[test]
fn device_state_of_failed_reading_is_unknown() {
    assert_eq!(device_state(None), DeviceState::Unknown);
}

#[test]
fn only_code_100_is_activated() {
    assert!(is_activated(Some(100)));
    assert!(!is_activated(Some(0)));
    assert!(!is_activated(Some(90)));
    assert!(!is_activated(Some(110)));
    assert!(!is_activated(None));
}

#[test]
fn only_code_2_is_wifi() {
    assert!(is_wifi_device(Some(2)));
    assert!(!is_wifi_device(Some(1)));
    assert!(!is_wifi_device(Some(14)));
    assert!(!is_wifi_device(Some(0)));
    assert!(!is_wifi_device(None));
}

#[test]
fn probe_finds_an_activated_device() {
    assert!(network_connected(&vec![Some(100)]));
    assert!(network_connected(&vec![Some(30), None, Some(100), Some(20)]));
    assert!(network_connected(&vec![None, None, Some(100)]));
    assert!(network_connected(&vec![Some(100), Some(100)]));
}

#[test]
fn probe_without_activated_device_is_false() {
    assert!(!network_connected(&vec![]));
    assert!(!network_connected(&vec![Some(30), Some(20), Some(0)]));
    assert!(!network_connected(&vec![Some(90), Some(110)]));
}

#[test]
fn probe_with_all_readings_failed_is_false() {
    assert!(!network_connected(&vec![None]));
    assert!(!network_connected(&vec![None, None, None, None]));
}

#[test]
fn first_wifi_device_is_selected() {
    assert_eq!(select_wifi_device(&vec![Some(1), Some(2), Some(2)]), Ok(1));
    assert_eq!(select_wifi_device(&vec![Some(2)]), Ok(0));
    assert_eq!(select_wifi_device(&vec![Some(14), Some(1), Some(13), Some(2)]), Ok(3));
}

#[test]
fn failed_readings_do_not_end_the_scan() {
    assert_eq!(select_wifi_device(&vec![None, None, None, Some(2)]), Ok(3));
    assert_eq!(select_wifi_device(&vec![None, Some(2), None, None]), Ok(1));
    assert_eq!(select_wifi_device(&vec![Some(2), None, None]), Ok(0));
}

#[test]
fn no_wifi_device_is_a_discovery_error() {
    assert_eq!(select_wifi_device(&vec![]), Err(SetupError::DeviceDiscovery));
    assert_eq!(select_wifi_device(&vec![None, None]), Err(SetupError::DeviceDiscovery));
    assert_eq!(
        select_wifi_device(&vec![Some(1), Some(14), None]),
        Err(SetupError::DeviceDiscovery)
    );
}
