use ota_cli::director::TargetFormat;
use ota_cli::error::Error;
use ota_cli::registry::{parse_list_args, select_listing, DeviceType, GroupType, Listing, Registry, RegistryCall};

const DEVICE: &str = "67e55044-10b1-426f-9247-bb680e5fe0c8";
const GROUP: &str = "{a1a2a3a4-b1b2-c1c2-d1d2-d3d4d5d6d7d8}";

#[test]
fn device_listing_choices() {
    let d = 0x67e55044_10b1_426f_9247_bb680e5fe0c8u128;
    let g = 0xa1a2a3a4_b1b2_c1c2_d1d2_d3d4d5d6d7d8u128;
    assert_eq!(Registry::list_device_args(true, Some(DEVICE), None).expect("all"), RegistryCall::ListAllDevices);
    assert_eq!(Registry::list_device_args(false, Some(DEVICE), Some(GROUP)).expect("device"), RegistryCall::ListDevice(d));
    assert_eq!(Registry::list_device_args(false, None, Some(GROUP)).expect("group"), RegistryCall::ListDevicesInGroup(g));
}

#[test]
fn group_listing_choices() {
    let d = 0x67e55044_10b1_426f_9247_bb680e5fe0c8u128;
    let g = 0xa1a2a3a4_b1b2_c1c2_d1d2_d3d4d5d6d7d8u128;
    assert_eq!(Registry::list_group_args(true, None, None).expect("all"), RegistryCall::ListAllGroups);
    assert_eq!(Registry::list_group_args(false, Some(DEVICE), None).expect("device"), RegistryCall::ListGroupsOfDevice(d));
    assert_eq!(Registry::list_group_args(false, None, Some(GROUP)).expect("group"), RegistryCall::ListDevicesInGroup(g));
}

#[test]
fn listing_without_selector_is_a_usage_error() {
    match Registry::list_device_args(false, None, None) {
        Err(Error::Args(m)) => assert_eq!(m, "one of --all, --device, or --group required"),
        other => panic!("unexpected: {:?}", other),
    }
    assert!(matches!(select_listing(false, None, None), Err(Error::Args(_))));
    assert_eq!(select_listing(false, Some(1), Some(2)).expect("device"), Listing::ByDevice(1));
}

#[test]
fn listing_with_bad_identifier_fails() {
    assert!(matches!(Registry::list_group_args(true, Some("not-a-uuid"), None), Err(Error::Uuid(_))));
    assert!(matches!(parse_list_args(false, None, Some("1234")), Err(Error::Uuid(_))));
    assert_eq!(parse_list_args(true, None, None).expect("args"), (true, None, None));
}

#[test]
fn device_and_group_types() {
    assert_eq!(DeviceType::parse("VEHICLE").expect("type"), DeviceType::Vehicle);
    assert_eq!(DeviceType::Vehicle.to_string(), "Vehicle");
    assert_eq!(DeviceType::Other.to_string(), "Other");
    match DeviceType::parse("car") {
        Err(Error::Parse(m)) => assert_eq!(m, "unknown `DeviceType`: car"),
        other => panic!("unexpected: {:?}", other),
    }
    assert_eq!(GroupType::parse("Dynamic").expect("type"), GroupType::Dynamic);
    assert_eq!(GroupType::Static.to_string(), "static");
    assert!(matches!(GroupType::parse("fixed"), Err(Error::Parse(_))));
}

#[test]
fn device_type_flags() {
    assert_eq!(DeviceType::from_args(true, true).expect("flag"), DeviceType::Vehicle);
    assert_eq!(DeviceType::from_args(false, true).expect("flag"), DeviceType::Other);
    match DeviceType::from_args(false, false) {
        Err(Error::Args(m)) => assert_eq!(m, "Either --vehicle or --other flag is required"),
        other => panic!("unexpected: {:?}", other),
    }
}

#[test]
fn target_formats() {
    assert_eq!(TargetFormat::parse("OSTREE").expect("format"), TargetFormat::Ostree);
    assert_eq!(TargetFormat::Binary.to_string(), "BINARY");
    assert_eq!(TargetFormat::Ostree.to_label(), "Ostree");
    assert_eq!(TargetFormat::from_args(true, true).expect("flag"), TargetFormat::Binary);
    assert!(matches!(TargetFormat::parse("zip"), Err(Error::Parse(_))));
}
