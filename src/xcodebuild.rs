//! The commands that build, install and launch the app, and the paths and identifiers they use.

use vstd::prelude::*;

use crate::error::DeployError;
use crate::selector::SelectedDevice;
use crate::text::{replace_char, replace_char_in};

verus! {

/// The build configuration.
#[derive(Clone, Copy, Debug, PartialEq, Eq, Structural)]
pub enum BuildType {
    Debug,
    Release,
}

/// An external command: a program and its arguments.
#[derive(Clone, Debug, PartialEq, Eq)]
pub struct ToolCommand {
    pub program: String,
    pub args: Vec<String>,
}

/// The texts of a sequence of strings.
pub open spec fn texts(v: Seq<String>) -> Seq<Seq<char>> {
    v.map_values(|s: String| s@)
}

impl ToolCommand {
    /// The program and arguments of the command, as texts.
    pub open spec fn words(self) -> (Seq<char>, Seq<Seq<char>>) {
        (self.program@, texts(self.args@))
    }
}

/// Builds a command from literal words.
fn command(program: &str, args: Vec<&str>) -> (r: ToolCommand)
    ensures
        r.program@ == program@,
        texts(r.args@) == args@.map_values(|a: &str| a@),
{
    let mut out: Vec<String> = Vec::new();
    let mut i: usize = 0;
    while i < args.len()
        invariant
            i <= args@.len(),
            texts(out@) == args@.subrange(0, i as int).map_values(|a: &str| a@),
        decreases args@.len() - i,
    {
        let ghost prev = out@;
        let word = String::from_str(args[i]);
        out.push(word);
        assert(texts(out@) =~= texts(prev).push(args@[i as int]@));
        assert(args@.subrange(0, i + 1).map_values(|a: &str| a@) =~= args@.subrange(0, i as int).map_values(
            |a: &str| a@,
        ).push(args@[i as int]@));
        i = i + 1;
    }
    assert(args@.subrange(0, args@.len() as int) =~= args@);
    ToolCommand { program: String::from_str(program), args: out }
}

/// The outcome of an external command: success, or its captured output.
pub fn tool_outcome(success: bool, stdout: String, stderr: String) -> (r: Result<(), DeployError>)
    ensures
        success ==> r is Ok,
        !success ==> r == Err::<(), DeployError>(DeployError::ExternalTool { stdout, stderr }),
{
    if success {
        Ok(())
    } else {
        Err(DeployError::ExternalTool { stdout, stderr })
    }
}

/// The identifier of an app: the prefix, a dot, and the app name with each `_` written `-`.
pub open spec fn bundle_identifier(prefix: Seq<char>, app_name: Seq<char>) -> Seq<char> {
    prefix + "."@ + replace_char(app_name, '_', '-')
}

/// The fully qualified bundle identifier of the app.
pub fn full_app_name(bundle_id_prefix: &str, app_name: &str) -> (r: String)
    ensures
        r@ == bundle_identifier(bundle_id_prefix@, app_name@),
{
    let name = replace_char_in(app_name, '_', '-');
    String::from_str(bundle_id_prefix).concat(".").concat(name.as_str())
}

/// The name of a build configuration.
pub open spec fn configuration_name(build_type: BuildType) -> Seq<char> {
    match build_type {
        BuildType::Debug => "Debug"@,
        BuildType::Release => "Release"@,
    }
}

fn configuration(build_type: BuildType) -> (r: &'static str)
    ensures
        r@ == configuration_name(build_type),
{
    match build_type {
        BuildType::Debug => "Debug",
        BuildType::Release => "Release",
    }
}

/// The platform directory that products for a target are built into.
pub open spec fn products_platform(device: SelectedDevice) -> Seq<char> {
    match device {
        SelectedDevice::Device(_) => "iphoneos"@,
        SelectedDevice::Simulator { .. } => "iphonesimulator"@,
    }
}

/// Where the built bundle lies, relative to the project directory:
/// `build/Build/Products/<configuration>-<platform>/<app>.app`.
pub open spec fn app_path(device: SelectedDevice, build_type: BuildType, app_name: Seq<char>) -> Seq<char> {
    "build/Build/Products/"@ + configuration_name(build_type) + "-"@ + products_platform(device)
        + "/"@ + app_name + ".app"@
}

/// The path of the built bundle for a target and configuration.
pub fn build_app_path(device: &SelectedDevice, build_type: BuildType, app_name: &str) -> (r: String)
    ensures
        r@ == app_path(*device, build_type, app_name@),
{
    let platform = match device {
        SelectedDevice::Device(_) => "iphoneos",
        SelectedDevice::Simulator { .. } => "iphonesimulator",
    };
    String::from_str("build/Build/Products/").concat(configuration(build_type)).concat("-").concat(
        platform,
    ).concat("/").concat(app_name).concat(".app")
}

/// The architecture to build for a device: `arm64e` devices take `arm64` builds.
pub open spec fn build_arch(cpu_architecture: Seq<char>) -> Seq<char> {
    if cpu_architecture == "arm64e"@ {
        "arm64"@
    } else {
        cpu_architecture
    }
}

/// The arguments of the build command for a target, configuration and scheme.
pub open spec fn build_args(device: SelectedDevice, build_type: BuildType, scheme: Seq<char>) -> Seq<
    Seq<char>,
> {
    let base = seq![
        "-derivedDataPath"@,
        "build"@,
        "-scheme"@,
        scheme,
        "-configuration"@,
        configuration_name(build_type),
        "-allowProvisioningUpdates"@,
    ];
    match device {
        SelectedDevice::Device(d) => base + seq!["-sdk"@, "iphoneos"@, "-arch"@, build_arch(d.cpu_architecture@)],
        SelectedDevice::Simulator { udid } => base + seq![
            "-destination"@,
            "platform=iOS Simulator,id="@ + udid@,
        ],
    }
}

/// The build command for a target, configuration and scheme, run in the project directory.
pub fn xcode_build_command(device: &SelectedDevice, build_type: BuildType, scheme_name: &str) -> (r: ToolCommand)
    ensures
        r.words() == ("xcodebuild"@, build_args(*device, build_type, scheme_name@)),
{
    let mut args: Vec<String> = Vec::new();
    args.push(String::from_str("-derivedDataPath"));
    args.push(String::from_str("build"));
    args.push(String::from_str("-scheme"));
    args.push(String::from_str(scheme_name));
    args.push(String::from_str("-configuration"));
    args.push(String::from_str(configuration(build_type)));
    args.push(String::from_str("-allowProvisioningUpdates"));
    match device {
        SelectedDevice::Device(d) => {
            args.push(String::from_str("-sdk"));
            args.push(String::from_str("iphoneos"));
            args.push(String::from_str("-arch"));
            if d.cpu_architecture == String::from_str("arm64e") {
                args.push(String::from_str("arm64"));
            } else {
                args.push(d.cpu_architecture.clone());
            }
        },
        SelectedDevice::Simulator { udid } => {
            args.push(String::from_str("-destination"));
            args.push(String::from_str("platform=iOS Simulator,id=").concat(udid.as_str()));
        },
    }
    let r = ToolCommand { program: String::from_str("xcodebuild"), args };
    assert(r.words().1 =~= build_args(*device, build_type, scheme_name@));
    r
}

/// The command that lists the iOS simulators as JSON.
pub fn simulator_list_command() -> (r: ToolCommand)
    ensures
        r.words() == ("xcrun"@, seq!["simctl"@, "list"@, "devices"@, "iOS"@, "--json"@]),
{
    let r = command("xcrun", vec!["simctl", "list", "devices", "iOS", "--json"]);
    assert(texts(r.args@) =~= seq!["simctl"@, "list"@, "devices"@, "iOS"@, "--json"@]);
    r
}

/// The command that installs a built bundle on a simulator.
pub fn simulator_install_command(udid: &str, app_path: &str) -> (r: ToolCommand)
    ensures
        r.words() == ("xcrun"@, seq!["simctl"@, "install"@, udid@, app_path@]),
{
    let r = command("xcrun", vec!["simctl", "install", udid, app_path]);
    assert(texts(r.args@) =~= seq!["simctl"@, "install"@, udid@, app_path@]);
    r
}

/// The command that launches an installed app on a simulator.
pub fn simulator_launch_command(udid: &str, bundle_id: &str) -> (r: ToolCommand)
    ensures
        r.words() == ("xcrun"@, seq!["simctl"@, "launch"@, udid@, bundle_id@]),
{
    let r = command("xcrun", vec!["simctl", "launch", udid, bundle_id]);
    assert(texts(r.args@) =~= seq!["simctl"@, "launch"@, udid@, bundle_id@]);
    r
}

/// The commands that boot a simulator and bring up the simulator app.
pub fn boot_simulator_commands(udid: &str) -> (r: Vec<ToolCommand>)
    ensures
        r@.len() == 2,
        r@[0].words() == ("xcrun"@, seq!["simctl"@, "boot"@, udid@]),
        r@[1].words() == ("open"@, seq!["-a"@, "Simulator.app"@]),
{
    let boot = command("xcrun", vec!["simctl", "boot", udid]);
    assert(texts(boot.args@) =~= seq!["simctl"@, "boot"@, udid@]);
    let open = command("open", vec!["-a", "Simulator.app"]);
    assert(texts(open.args@) =~= seq!["-a"@, "Simulator.app"@]);
    vec![boot, open]
}

/// The commands that deploy a built app to a simulator: install the bundle, then launch the app
/// by its bundle identifier. They run in order, and the first that fails ends the deployment.
pub fn simulator_deploy_commands(udid: &str, app_path: &str, bundle_id_prefix: &str, app_name: &str) -> (r: Vec<ToolCommand>)
    ensures
        r@.len() == 2,
        r@[0].words() == ("xcrun"@, seq!["simctl"@, "install"@, udid@, app_path@]),
        r@[1].words() == ("xcrun"@, seq!["simctl"@, "launch"@, udid@, bundle_identifier(bundle_id_prefix@, app_name@)]),
{
    let install = simulator_install_command(udid, app_path);
    let bundle_id = full_app_name(bundle_id_prefix, app_name);
    let launch = simulator_launch_command(udid, bundle_id.as_str());
    vec![install, launch]
}

/// How a built app reaches its target.
#[derive(Clone, Debug, PartialEq, Eq)]
pub enum DeployPlan {
    /// Install the bundle at this path on the selected physical device.
    Device { bundle_path: String },
    /// Run these commands in the project directory, in order, stopping at the first failure.
    Simulator { commands: Vec<ToolCommand> },
}

/// The way to deploy the built app to the selected device: a physical device gets the bundle
/// under the project directory; a simulator gets the bundle installed, then the app launched.
pub fn deploy_plan(
    device: &SelectedDevice,
    build_type: BuildType,
    app_name: &str,
    bundle_id_prefix: &str,
    project_dir: &str,
) -> (r: DeployPlan)
    ensures
        match *device {
            SelectedDevice::Device(_) => match r {
                DeployPlan::Device { bundle_path } => bundle_path@ == project_dir@ + "/"@ + app_path(
                    *device,
                    build_type,
                    app_name@,
                ),
                _ => false,
            },
            SelectedDevice::Simulator { udid } => match r {
                DeployPlan::Simulator { commands } => commands@.len() == 2 && commands@[0].words() == (
                    "xcrun"@,
                    seq!["simctl"@, "install"@, udid@, app_path(*device, build_type, app_name@)],
                ) && commands@[1].words() == (
                    "xcrun"@,
                    seq!["simctl"@, "launch"@, udid@, bundle_identifier(bundle_id_prefix@, app_name@)],
                ),
                _ => false,
            },
        },
{
    let path = build_app_path(device, build_type, app_name);
    match device {
        SelectedDevice::Device(_) => DeployPlan::Device {
            bundle_path: String::from_str(project_dir).concat("/").concat(path.as_str()),
        },
        SelectedDevice::Simulator { udid } => DeployPlan::Simulator {
            commands: simulator_deploy_commands(udid.as_str(), path.as_str(), bundle_id_prefix, app_name),
        },
    }
}

} // verus!
