use captive_portal::address::Ipv4Address;
use captive_portal::ap::settings::address_from_update;
use captive_portal::ap::settings::address_word;
use captive_portal::ap::settings::first_address_word;
use captive_portal::ap::settings::make_arguments_for_ap;
use captive_portal::ap::settings::start_ap_mode;
use captive_portal::ap::settings::wait_for_ip_from_device;
use captive_portal::ap::settings::AccessPointSettings;
use captive_portal::ap::settings::Group;
use captive_portal::ap::settings::Setting;
use captive_portal::ap::settings::SettingGroup;
use captive_portal::ap::settings::SettingValue;
use captive_portal::error::SetupError;

fn text(key: &str, value: &str) -> Setting {
    Setting { key: key.to_string(), value: SettingValue::Text(value.to_string()) }
}

fn flag(key: &str, value: bool) -> Setting {
    Setting { key: key.to_string(), value: SettingValue::Flag(value) }
}

fn expected_settings(ssid: &[u8]) -> AccessPointSettings {
    AccessPointSettings {
        groups: vec![
            SettingGroup {
                group: Group::Wireless,
                settings: vec![
                    Setting { key: "ssid".to_string(), value: SettingValue::Bytes(ssid.to_vec()) },
                    text("mode", "ap"),
                    text("band", "bg"),
                    flag("hidden", false),
                ],
            },
            SettingGroup { group: Group::Ipv4, settings: vec![text("method", "shared")] },
            SettingGroup { group: Group::Ipv6, settings: vec![text("method", "ignore")] },
            SettingGroup { group: Group::Connection, settings: vec![flag("autoconnect", true)] },
        ],
    }
}

fn word(a: u8, b: u8, c: u8, d: u8) -> u32 {
    u32::from_ne_bytes([a, b, c, d])
}

#[test]
fn settings_for_my_net_are_exactly_the_fixed_set() {
    let settings = make_arguments_for_ap("MyNet");
    assert_eq!(settings, expected_settings(b"MyNet"));
    assert_eq!(settings.groups.len(), 4);
    let wireless = &settings.groups[0];
    assert_eq!(wireless.group, Group::Wireless);
    assert_eq!(wireless.settings.len(), 4);
    assert_eq!(wireless.settings[0].value, SettingValue::Bytes(vec![77, 121, 78, 101, 116]));
}

#[test]
fn ssid_goes_out_as_utf8_bytes() {
    let settings = make_arguments_for_ap("Café");
    assert_eq!(
        settings.groups[0].settings[0].value,
        SettingValue::Bytes(vec![0x43, 0x61, 0x66, 0xC3, 0xA9])
    );
    assert_eq!(settings, expected_settings("Café".as_bytes()));
}

#[test]
fn empty_ssid_gives_empty_bytes() {
    assert_eq!(make_arguments_for_ap(""), expected_settings(b""));
}

#[test]
fn groups_and_keys_occur_once() {
    let settings = make_arguments_for_ap("MyNet");
    for (i, group) in settings.groups.iter().enumerate() {
        for other in &settings.groups[i + 1..] {
            assert_ne!(group.group, other.group);
        }
        for (k, setting) in group.settings.iter().enumerate() {
            for later in &group.settings[k + 1..] {
                assert_ne!(setting.key, later.key);
            }
        }
    }
}

#[test]
fn groups_have_the_names_of_the_network_manager() {
    assert_eq!(Group::Wireless.section(), "802-11-wireless");
    assert_eq!(Group::Ipv4.section(), "ipv4");
    assert_eq!(Group::Ipv6.section(), "ipv6");
    assert_eq!(Group::Connection.section(), "connection");
}

#[test]
fn activation_is_planned_on_the_first_wifi_device() {
    let request = start_ap_mode(&vec![Some(1), None, Some(2), Some(2)], "MyNet").unwrap();
    assert_eq!(request.device, 2);
    assert_eq!(request.settings, expected_settings(b"MyNet"));
    assert_eq!(request.specific_object, "/");
    assert_eq!(request.options, vec![text("persist", "volatile")]);
}

#[test]
fn activation_survives_failed_readings() {
    let request = start_ap_mode(&vec![None, None, None, Some(2), None], "Setup").unwrap();
    assert_eq!(request.device, 3);
    assert_eq!(request.settings, expected_settings(b"Setup"));
}

#[test]
fn activation_without_wifi_device_fails() {
    assert_eq!(start_ap_mode(&vec![], "MyNet"), Err(SetupError::DeviceDiscovery));
    assert_eq!(
        start_ap_mode(&vec![Some(1), None, Some(14)], "MyNet"),
        Err(SetupError::DeviceDiscovery)
    );
}

#[test]
fn notification_word_is_the_first_of_the_first_block() {
    assert_eq!(address_word(&Some(vec![vec![7, 24, 9], vec![8, 24, 9]])), Some(7));
    assert_eq!(address_word(&Some(vec![vec![5]])), Some(5));
}

#[test]
fn notification_without_address_has_no_word() {
    assert_eq!(address_word(&None), None);
    assert_eq!(address_word(&Some(vec![])), None);
    assert_eq!(address_word(&Some(vec![vec![]])), None);
    assert_eq!(address_word(&Some(vec![vec![], vec![7, 24, 9]])), None);
}

#[test]
fn notification_address_is_read_in_network_byte_order() {
    let update = Some(vec![vec![word(192, 168, 4, 1), 24, word(192, 168, 4, 1)]]);
    assert_eq!(address_from_update(&update), Some(Ipv4Address::new(192, 168, 4, 1)));
    assert_eq!(address_from_update(&Some(vec![])), None);
    assert_eq!(address_from_update(&None), None);
}

#[test]
fn first_word_comes_with_its_position() {
    let updates = vec![None, Some(vec![]), Some(vec![vec![9, 8]]), Some(vec![vec![4]])];
    assert_eq!(first_address_word(&updates), Some((2, 9)));
    assert_eq!(first_address_word(&vec![Some(vec![]), None]), None);
    assert_eq!(first_address_word(&vec![]), None);
}

#[test]
fn waiter_passes_over_empty_notifications() {
    let updates = vec![
        Some(vec![]),
        Some(vec![]),
        Some(vec![vec![word(192, 168, 4, 1), 24, word(192, 168, 4, 1)]]),
    ];
    assert_eq!(wait_for_ip_from_device(&updates), Ok(Ipv4Address::new(192, 168, 4, 1)));
}

#[test]
fn waiter_takes_the_first_address() {
    let updates = vec![
        None,
        Some(vec![vec![]]),
        Some(vec![vec![word(10, 42, 0, 1), 24, 0], vec![word(10, 42, 0, 2), 24, 0]]),
        Some(vec![vec![word(192, 168, 4, 1), 24, 0]]),
    ];
    assert_eq!(wait_for_ip_from_device(&updates), Ok(Ipv4Address::new(10, 42, 0, 1)));
}

#[test]
fn waiter_fails_when_the_notifications_end_without_address() {
    assert_eq!(wait_for_ip_from_device(&vec![]), Err(SetupError::AddressResolution));
    assert_eq!(
        wait_for_ip_from_device(&vec![Some(vec![]), None, Some(vec![vec![]])]),
        Err(SetupError::AddressResolution)
    );
}
