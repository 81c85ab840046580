use cargo_xcodebuild::devices::{DeviceState, JsonMember, JsonValue, SimulatorDevice, SimulatorDevices};
use cargo_xcodebuild::error::DeployError;

fn to_json(v: &serde_json::Value) -> JsonValue {
    match v {
        serde_json::Value::Null => JsonValue::Null,
        serde_json::Value::Bool(b) => JsonValue::Bool(*b),
        serde_json::Value::Number(n) => JsonValue::Number(n.to_string()),
        serde_json::Value::String(s) => JsonValue::Text(s.clone()),
        serde_json::Value::Array(items) => JsonValue::Array(items.iter().map(to_json).collect()),
        serde_json::Value::Object(members) => JsonValue::Object(
            members
                .iter()
                .map(|(k, v)| JsonMember { key: k.clone(), value: to_json(v) })
                .collect(),
        ),
    }
}

fn listing(contents: &str) -> SimulatorDevices {
    let root: serde_json::Value = serde_json::from_str(contents).unwrap();
    SimulatorDevices::from_document(to_json(&root)).unwrap()
}

fn device(udid: &str, name: &str, state: DeviceState) -> SimulatorDevice {
    SimulatorDevice { udid: udid.to_string(), name: name.to_string(), state }
}

#[test]
fn from_json() {
    let contents = r#"{
        "devices": {
          "com.apple.CoreSimulator.SimRuntime.tvOS-15-2": [],
          "com.apple.CoreSimulator.SimRuntime.watchOS-8-3": [],
          "com.apple.CoreSimulator.SimRuntime.iOS-15-2": [
            {
              "dataPath": "",
              "dataPathSize": 859213824,
              "logPath": "",
              "udid": "4F57337E-1AF2-4D30-9726-87040063C016",
              "isAvailable": true,
              "logPathSize": 385024,
              "deviceTypeIdentifier": "com.apple.CoreSimulator.SimDeviceType.iPhone-8",
              "state": "Booted",
              "name": "iPhone 8"
            },
            {
                "dataPath" : "",
                "dataPathSize" : 13312000,
                "logPath" : "",
                "udid" : "4F8AC01F-F4AD-4550-A853-C535C0BA7AF0",
                "isAvailable" : true,
                "deviceTypeIdentifier" : "com.apple.CoreSimulator.SimDeviceType.iPhone-8-Plus",
                "state" : "Shutdown",
                "name" : "iPhone 8 Plus"
            }
          ]
        }
      }"#;
    let devices = listing(contents);
    let ios_devices = devices.ios().unwrap();

    assert_eq!(
        ios_devices,
        vec![
            SimulatorDevice {
                udid: "4F57337E-1AF2-4D30-9726-87040063C016".into(),
                name: "iPhone 8".to_string(),
                state: DeviceState::Booted
            },
            SimulatorDevice {
                udid: "4F8AC01F-F4AD-4550-A853-C535C0BA7AF0".into(),
                name: "iPhone 8 Plus".to_string(),
                state: DeviceState::Shutdown
            }
        ]
    )
}

#[test]
fn only_ios_keys_in_encounter_order() {
    let contents = r#"{"devices": {
        "com.apple.CoreSimulator.SimRuntime.iOS-16-0": [
            {"udid": "A", "name": "iPhone 14", "state": "Shutdown"}
        ],
        "com.apple.CoreSimulator.SimRuntime.tvOS-16-0": [
            {"udid": "T", "name": "Apple TV", "state": "Booted"}
        ],
        "com.apple.CoreSimulator.SimRuntime.watchOS-9-0": [
            {"udid": "W", "name": "Watch", "state": "Booted"}
        ],
        "com.apple.CoreSimulator.SimRuntime.iOS-15-2": [
            {"udid": "B", "name": "iPhone 8", "state": "Booted"},
            {"udid": "C", "name": "iPad", "state": "Shutdown"}
        ]
    }}"#;
    let got = listing(contents).ios().unwrap();
    assert_eq!(
        got,
        vec![
            device("A", "iPhone 14", DeviceState::Shutdown),
            device("B", "iPhone 8", DeviceState::Booted),
            device("C", "iPad", DeviceState::Shutdown),
        ]
    );
}

#[test]
fn substring_match_not_platform() {
    let contents = r#"{"devices": {
        "iOS-17-0": [{"udid": "X", "name": "No dot", "state": "Booted"}],
        "runtime.iOSLike": [{"udid": "Y", "name": "Dot iOS", "state": "Booted"}]
    }}"#;
    let got = listing(contents).ios().unwrap();
    assert_eq!(got, vec![device("Y", "Dot iOS", DeviceState::Booted)]);
}

#[test]
fn malformed_ios_payload_fails_whole_listing() {
    let contents = r#"{"devices": {
        "com.apple.CoreSimulator.SimRuntime.iOS-16-0": [
            {"udid": "A", "name": "iPhone 14", "state": "Shutdown"}
        ],
        "com.apple.CoreSimulator.SimRuntime.iOS-15-2": [
            {"udid": "B", "name": "iPhone 8"}
        ]
    }}"#;
    let got = listing(contents).ios();
    assert_eq!(
        got,
        Err(DeployError::MalformedListing {
            runtime_key: "com.apple.CoreSimulator.SimRuntime.iOS-15-2".to_string()
        })
    );
}

#[test]
fn unknown_state_is_malformed() {
    let contents = r#"{"devices": {
        "com.apple.CoreSimulator.SimRuntime.iOS-15-2": [
            {"udid": "B", "name": "iPhone 8", "state": "Creating"}
        ]
    }}"#;
    assert!(listing(contents).ios().is_err());
}

#[test]
fn payload_not_a_list_is_malformed() {
    let contents = r#"{"devices": {"com.apple.CoreSimulator.SimRuntime.iOS-15-2": {"udid": "B"}}}"#;
    assert!(listing(contents).ios().is_err());
}

#[test]
fn malformed_non_ios_payload_is_ignored() {
    let contents = r#"{"devices": {
        "com.apple.CoreSimulator.SimRuntime.tvOS-16-0": 7,
        "com.apple.CoreSimulator.SimRuntime.iOS-15-2": []
    }}"#;
    assert_eq!(listing(contents).ios(), Ok(vec![]));
}

#[test]
fn empty_listing_gives_no_devices() {
    assert_eq!(listing(r#"{"devices": {}}"#).ios(), Ok(vec![]));
}

#[test]
fn document_without_devices_object_is_refused() {
    let doc: serde_json::Value = serde_json::from_str(r#"{"runtimes": {}}"#).unwrap();
    assert!(SimulatorDevices::from_document(to_json(&doc)).is_none());
    let doc: serde_json::Value = serde_json::from_str(r#"{"devices": []}"#).unwrap();
    assert!(SimulatorDevices::from_document(to_json(&doc)).is_none());
    let doc: serde_json::Value = serde_json::from_str(r#"[1, 2]"#).unwrap();
    assert!(SimulatorDevices::from_document(to_json(&doc)).is_none());
}

#[test]
fn document_keeps_runtime_order() {
    let doc: serde_json::Value =
        serde_json::from_str(r#"{"other": 1, "devices": {"b.iOS-2": [], "a.iOS-1": []}}"#).unwrap();
    let listing = SimulatorDevices::from_document(to_json(&doc)).unwrap();
    let keys: Vec<&str> = listing.devices.iter().map(|m| m.key.as_str()).collect();
    assert_eq!(keys, vec!["b.iOS-2", "a.iOS-1"]);
}
