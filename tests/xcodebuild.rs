use cargo_xcodebuild::error::DeployError;
use cargo_xcodebuild::mobile_device::{DeviceConnectionType, MobileDevice};
use cargo_xcodebuild::selector::SelectedDevice;
use cargo_xcodebuild::xcodebuild::{
    boot_simulator_commands, build_app_path, deploy_plan, full_app_name, simulator_list_command,
    tool_outcome, xcode_build_command, BuildType, DeployPlan,
};

fn phone(arch: &str) -> SelectedDevice {
    SelectedDevice::Device(MobileDevice {
        identifier: "PHONE-1".to_string(),
        device_name: "Phone".to_string(),
        connection_type: DeviceConnectionType::Network,
        cpu_architecture: arch.to_string(),
        device_class: "iPhone".to_string(),
        product_version: "16.0".to_string(),
        model: "D73AP".to_string(),
    })
}

fn simulator() -> SelectedDevice {
    SelectedDevice::Simulator { udid: "SIM-1".to_string() }
}

fn words(args: &[String]) -> Vec<&str> {
    args.iter().map(|s| s.as_str()).collect()
}

#[test]
fn bundle_identifier_replaces_underscores() {
    assert_eq!(full_app_name("com.rust", "my_app"), "com.rust.my-app");
    assert_eq!(full_app_name("org.example", "a_b_c"), "org.example.a-b-c");
    assert_eq!(full_app_name("com.rust", "plain"), "com.rust.plain");
}

#[test]
fn app_paths_follow_configuration_and_platform() {
    assert_eq!(
        build_app_path(&phone("arm64"), BuildType::Debug, "my_app"),
        "build/Build/Products/Debug-iphoneos/my_app.app"
    );
    assert_eq!(
        build_app_path(&simulator(), BuildType::Release, "my_app"),
        "build/Build/Products/Release-iphonesimulator/my_app.app"
    );
}

#[test]
fn device_build_uses_sdk_and_arch() {
    let cmd = xcode_build_command(&phone("arm64e"), BuildType::Release, "my_app");
    assert_eq!(cmd.program, "xcodebuild");
    assert_eq!(
        words(&cmd.args),
        vec![
            "-derivedDataPath", "build", "-scheme", "my_app", "-configuration", "Release",
            "-allowProvisioningUpdates", "-sdk", "iphoneos", "-arch", "arm64",
        ]
    );
    let cmd = xcode_build_command(&phone("armv7"), BuildType::Debug, "my_app");
    assert_eq!(cmd.args.last().unwrap(), "armv7");
}

#[test]
fn simulator_build_uses_destination() {
    let cmd = xcode_build_command(&simulator(), BuildType::Debug, "my_app");
    assert_eq!(
        words(&cmd.args),
        vec![
            "-derivedDataPath", "build", "-scheme", "my_app", "-configuration", "Debug",
            "-allowProvisioningUpdates", "-destination", "platform=iOS Simulator,id=SIM-1",
        ]
    );
}

#[test]
fn simulator_deploy_installs_then_launches() {
    match deploy_plan(&simulator(), BuildType::Debug, "my_app", "com.rust", "/tmp/proj") {
        DeployPlan::Simulator { commands } => {
            assert_eq!(commands.len(), 2);
            assert_eq!(commands[0].program, "xcrun");
            assert_eq!(
                words(&commands[0].args),
                vec!["simctl", "install", "SIM-1", "build/Build/Products/Debug-iphonesimulator/my_app.app"]
            );
            assert_eq!(words(&commands[1].args), vec!["simctl", "launch", "SIM-1", "com.rust.my-app"]);
        }
        _ => panic!("expected a simulator plan"),
    }
}

#[test]
fn device_deploy_points_at_bundle() {
    let plan = deploy_plan(&phone("arm64"), BuildType::Release, "my_app", "com.rust", "/tmp/proj");
    assert_eq!(
        plan,
        DeployPlan::Device {
            bundle_path: "/tmp/proj/build/Build/Products/Release-iphoneos/my_app.app".to_string()
        }
    );
}

#[test]
fn listing_and_boot_commands() {
    let list = simulator_list_command();
    assert_eq!(words(&list.args), vec!["simctl", "list", "devices", "iOS", "--json"]);
    let boot = boot_simulator_commands("SIM-1");
    assert_eq!(words(&boot[0].args), vec!["simctl", "boot", "SIM-1"]);
    assert_eq!(boot[1].program, "open");
    assert_eq!(words(&boot[1].args), vec!["-a", "Simulator.app"]);
}

#[test]
fn tool_failure_carries_output() {
    assert_eq!(tool_outcome(true, "x".to_string(), "y".to_string()), Ok(()));
    assert_eq!(
        tool_outcome(false, "out".to_string(), "err".to_string()),
        Err(DeployError::ExternalTool { stdout: "out".to_string(), stderr: "err".to_string() })
    );
}
