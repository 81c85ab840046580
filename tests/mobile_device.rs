use cargo_xcodebuild::mobile_device::{
    identity_plan, DeviceConnectionType, IdentityCall, IdentityKey, IdentityReadings, MobileDevice,
};

fn readings() -> IdentityReadings {
    IdentityReadings {
        identifier: Some("00008110-000A".to_string()),
        interface_type: 1,
        device_name: Some("My iPhone".to_string()),
        cpu_architecture: Some("arm64e".to_string()),
        device_class: Some("iPhone".to_string()),
        product_version: Some("16.0".to_string()),
        model: Some("D73AP".to_string()),
        disconnect_code: 0,
    }
}

#[test]
fn complete_identity_gives_record() {
    let d = MobileDevice::from_identity(&readings()).unwrap();
    assert_eq!(d.identifier, "00008110-000A");
    assert_eq!(d.connection_type, DeviceConnectionType::Usb);
    assert_eq!(d.cpu_architecture, "arm64e");
    assert_eq!(d.model, "D73AP");
    let mut r = readings();
    r.interface_type = 2;
    assert_eq!(MobileDevice::from_identity(&r).unwrap().connection_type, DeviceConnectionType::Network);
}

#[test]
fn unresolved_attribute_drops_device() {
    let mut r = readings();
    r.product_version = None;
    assert_eq!(MobileDevice::from_identity(&r), None);
    let mut r = readings();
    r.interface_type = 3;
    assert_eq!(MobileDevice::from_identity(&r), None);
    let mut r = readings();
    r.disconnect_code = -1;
    assert_eq!(MobileDevice::from_identity(&r), None);
}

#[test]
fn identity_reads_only_after_connect() {
    assert!(identity_plan(5).is_empty());
    let plan = identity_plan(0);
    assert_eq!(plan.len(), 8);
    assert_eq!(plan[0], IdentityCall::CopyDeviceIdentifier);
    assert_eq!(plan[2], IdentityCall::CopyValue(IdentityKey::DeviceName));
    assert_eq!(plan[7], IdentityCall::Disconnect);
    assert_eq!(IdentityKey::CpuArchitecture.name(), "CPUArchitecture");
    assert_eq!(IdentityKey::HardwareModel.name(), "HardwareModel");
}
