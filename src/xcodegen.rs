//! The parts of the project description for xcodegen: build settings, search paths, scheme,
//! dependencies and signing.

use vstd::prelude::*;

use crate::manifest::{IosMetadata, Lib, Root};
use crate::text::{replace_char, replace_char_in};
use crate::xcodebuild::texts;

verus! {

/// The build setting value that keeps what the project inherits.
pub const INHERITED: &'static str = "$(INHERITED)";

/// Options of the generated project.
#[derive(Clone, Debug, PartialEq, Eq)]
pub struct Options {
    pub bundle_id_prefix: String,
}

/// What a target depends on.
#[derive(Clone, Debug, PartialEq, Eq)]
pub enum DependencyType {
    Sdk(String),
    Target(String),
}

/// A dependency of the app target.
#[derive(Clone, Debug, PartialEq, Eq)]
pub struct Dependency {
    pub dependency_type: DependencyType,
    pub embed: Option<bool>,
}

impl Dependency {
    /// A dependency on the system framework `name`.
    pub open spec fn sdk_spec(name: String) -> Dependency {
        Dependency { dependency_type: DependencyType::Sdk(name), embed: None }
    }

    /// A dependency on a system framework.
    pub fn sdk(name: String) -> (r: Self)
        ensures
            r == Dependency::sdk_spec(name),
    {
        Dependency { dependency_type: DependencyType::Sdk(name), embed: None }
    }

    /// A dependency on another target, embedded in the app or not.
    pub fn target(name: String, embed: bool) -> (r: Self)
        ensures
            r == (Dependency { dependency_type: DependencyType::Target(name), embed: Some(embed) }),
    {
        Dependency { dependency_type: DependencyType::Target(name), embed: Some(embed) }
    }
}

/// Two strings, in order.
fn pair_of(a: &str, b: &str) -> (r: Vec<String>)
    ensures
        texts(r@) == seq![a@, b@],
{
    let r = vec![String::from_str(a), String::from_str(b)];
    assert(texts(r@) =~= seq![a@, b@]);
    r
}

/// The build settings of the app target.
#[derive(Clone, Debug, PartialEq, Eq, Default)]
pub struct TargetSetting {
    pub enable_bitcode: bool,
    pub clang_cxx_language_standard: String,
    pub clang_cxx_library: String,
    pub other_ldflags: Vec<String>,
    pub header_search_paths: Vec<String>,
}

impl TargetSetting {
    /// The settings that link the app with the static library `lib_name` and search headers in
    /// `header_path`: bitcode off, C++11 with libc++, and the C++ ABI library linked.
    pub fn base(lib_name: &str, header_path: &str) -> (r: Self)
        ensures
            !r.enable_bitcode,
            r.clang_cxx_language_standard@ == "c++11"@,
            r.clang_cxx_library@ == "libc++"@,
            texts(r.other_ldflags@) == seq![INHERITED@, "-lc++abi"@, "-l"@ + lib_name@],
            texts(r.header_search_paths@) == seq![INHERITED@, header_path@],
    {
        let other_ldflags = vec![
            String::from_str(INHERITED),
            String::from_str("-lc++abi"),
            String::from_str("-l").concat(lib_name),
        ];
        assert(texts(other_ldflags@) =~= seq![INHERITED@, "-lc++abi"@, "-l"@ + lib_name@]);
        Self {
            enable_bitcode: false,
            header_search_paths: pair_of(INHERITED, header_path),
            clang_cxx_language_standard: String::from_str("c++11"),
            clang_cxx_library: String::from_str("libc++"),
            other_ldflags,
        }
    }
}

/// The library search paths of one build configuration, for device, arm64 simulator and
/// x86_64 simulator builds.
#[derive(Clone, Debug, PartialEq, Eq, Default)]
pub struct TargetConfig {
    pub library_search_paths_arm: Vec<String>,
    pub library_search_paths_arm_sim: Vec<String>,
    pub library_search_paths_x86: Vec<String>,
}

impl TargetConfig {
    /// Whether the paths lead to the directories of configuration `profile` of each target.
    pub open spec fn searches(self, profile: Seq<char>) -> bool {
        &&& texts(self.library_search_paths_arm@) == seq![INHERITED@, "../../aarch64-apple-ios/"@ + profile]
        &&& texts(self.library_search_paths_arm_sim@) == seq![INHERITED@, "../../aarch64-apple-ios-sim/"@ + profile]
        &&& texts(self.library_search_paths_x86@) == seq![INHERITED@, "../../x86_64-apple-ios/"@ + profile]
    }

    /// The search paths of release builds.
    pub fn release() -> (r: Self)
        ensures
            r.searches("release"@),
    {
        let r = Self {
            library_search_paths_arm: pair_of(INHERITED, "../../aarch64-apple-ios/release"),
            library_search_paths_arm_sim: pair_of(INHERITED, "../../aarch64-apple-ios-sim/release"),
            library_search_paths_x86: pair_of(INHERITED, "../../x86_64-apple-ios/release"),
        };
        proof {
            reveal_strlit("../../aarch64-apple-ios/release");
            reveal_strlit("../../aarch64-apple-ios/");
            reveal_strlit("../../aarch64-apple-ios-sim/release");
            reveal_strlit("../../aarch64-apple-ios-sim/");
            reveal_strlit("../../x86_64-apple-ios/release");
            reveal_strlit("../../x86_64-apple-ios/");
            reveal_strlit("release");
            assert("../../aarch64-apple-ios/release"@ =~= "../../aarch64-apple-ios/"@ + "release"@);
            assert("../../aarch64-apple-ios-sim/release"@ =~= "../../aarch64-apple-ios-sim/"@ + "release"@);
            assert("../../x86_64-apple-ios/release"@ =~= "../../x86_64-apple-ios/"@ + "release"@);
        }
        r
    }

    /// The search paths of debug builds.
    pub fn debug() -> (r: Self)
        ensures
            r.searches("debug"@),
    {
        let r = Self {
            library_search_paths_arm: pair_of(INHERITED, "../../aarch64-apple-ios/debug"),
            library_search_paths_arm_sim: pair_of(INHERITED, "../../aarch64-apple-ios-sim/debug"),
            library_search_paths_x86: pair_of(INHERITED, "../../x86_64-apple-ios/debug"),
        };
        proof {
            reveal_strlit("../../aarch64-apple-ios/debug");
            reveal_strlit("../../aarch64-apple-ios/");
            reveal_strlit("../../aarch64-apple-ios-sim/debug");
            reveal_strlit("../../aarch64-apple-ios-sim/");
            reveal_strlit("../../x86_64-apple-ios/debug");
            reveal_strlit("../../x86_64-apple-ios/");
            reveal_strlit("debug");
            assert("../../aarch64-apple-ios/debug"@ =~= "../../aarch64-apple-ios/"@ + "debug"@);
            assert("../../aarch64-apple-ios-sim/debug"@ =~= "../../aarch64-apple-ios-sim/"@ + "debug"@);
            assert("../../x86_64-apple-ios/debug"@ =~= "../../x86_64-apple-ios/"@ + "debug"@);
        }
        r
    }
}

/// An environment variable that the run scheme sets.
#[derive(Clone, Debug, PartialEq, Eq)]
pub struct EnvironmentVariable {
    pub variable: String,
    pub value: String,
    pub is_enabled: bool,
}

/// The run scheme of the app target.
#[derive(Clone, Debug, PartialEq, Eq)]
pub struct TargetScheme {
    pub environment_variables: Vec<EnvironmentVariable>,
}

impl Default for TargetScheme {
    /// Full backtraces and `info` logging, both enabled.
    fn default() -> (r: Self)
        ensures
            r.environment_variables@.len() == 2,
            r.environment_variables@[0].variable@ == "RUST_BACKTRACE"@,
            r.environment_variables@[0].value@ == "full"@,
            r.environment_variables@[0].is_enabled,
            r.environment_variables@[1].variable@ == "RUST_LOG"@,
            r.environment_variables@[1].value@ == "info"@,
            r.environment_variables@[1].is_enabled,
    {
        Self {
            environment_variables: vec![
                EnvironmentVariable {
                    variable: String::from_str("RUST_BACKTRACE"),
                    value: String::from_str("full"),
                    is_enabled: true,
                },
                EnvironmentVariable {
                    variable: String::from_str("RUST_LOG"),
                    value: String::from_str("info"),
                    is_enabled: true,
                },
            ],
        }
    }
}

/// The kind of product a target builds.
#[derive(Clone, Copy, Debug, PartialEq, Eq, Structural)]
pub enum ProductType {
    Application,
    /// No product type; written as an empty word.
    Unspecified,
}

/// The platform a target is built for.
#[derive(Clone, Copy, Debug, PartialEq, Eq, Structural)]
pub enum Platform {
    Ios,
    MacOS,
    TvOS,
    WatchOS,
}

/// The word that a boolean build setting is written with.
pub fn bool_to_word(value: bool) -> (r: &'static str)
    ensures
        r@ == (if value { "YES"@ } else { "NO"@ }),
{
    if value {
        "YES"
    } else {
        "NO"
    }
}

/// The name of the library that the manifest builds: the `lib` section's name, else the
/// package's name.
pub open spec fn library_name(toml: Root) -> Seq<char> {
    match toml.lib {
        Some(Lib { name: Some(n), .. }) => n@,
        _ => toml.package.name@,
    }
}

/// The name of the app target: the library name with each `-` written `_`.
pub fn target_name(toml: &Root) -> (r: String)
    ensures
        r@ == replace_char(library_name(*toml), '-', '_'),
{
    let name = match &toml.lib {
        Some(Lib { name: Some(n), .. }) => n.as_str(),
        _ => toml.package.name.as_str(),
    };
    replace_char_in(name, '-', '_')
}

/// The bundle identifier prefix used when the manifest names none.
pub const DEFAULT_BUNDLE_PREFIX: &'static str = "com.rust";

/// The deployment target used when the manifest names none.
pub const DEFAULT_DEPLOYMENT_TARGET: &'static str = "12";

/// The text of an optional setting, or `default` when it is absent.
pub open spec fn or_default(v: Option<String>, default: Seq<char>) -> Seq<char> {
    match v {
        Some(s) => s@,
        None => default,
    }
}

fn text_or(v: &Option<String>, default: &str) -> (r: String)
    ensures
        r@ == or_default(*v, default@),
{
    match v {
        Some(s) => s.clone(),
        None => String::from_str(default),
    }
}

/// The options of the project: the manifest's bundle identifier prefix, else `com.rust`.
pub fn project_options(ios: &IosMetadata) -> (r: Options)
    ensures
        r.bundle_id_prefix@ == or_default(ios.bundle_id_prefix, DEFAULT_BUNDLE_PREFIX@),
{
    Options { bundle_id_prefix: text_or(&ios.bundle_id_prefix, DEFAULT_BUNDLE_PREFIX) }
}

/// The deployment target of the app: the manifest's, else `12`.
pub fn deployment_target(ios: &IosMetadata) -> (r: String)
    ensures
        r@ == or_default(ios.deployment_target, DEFAULT_DEPLOYMENT_TARGET@),
{
    text_or(&ios.deployment_target, DEFAULT_DEPLOYMENT_TARGET)
}

/// The dependencies of the app target: one system framework for each name the manifest lists.
pub fn sdk_dependencies(ios: &IosMetadata) -> (r: Vec<Dependency>)
    ensures
        match ios.dependencies {
            Some(names) => r@.len() == names@.len() && forall|i: int|
                0 <= i < names@.len() ==> #[trigger] r@[i] == Dependency::sdk_spec(names@[i]),
            None => r@.len() == 0,
        },
{
    let mut deps: Vec<Dependency> = Vec::new();
    match &ios.dependencies {
        None => {},
        Some(names) => {
            let mut i: usize = 0;
            while i < names.len()
                invariant
                    i <= names@.len(),
                    deps@.len() == i,
                    forall|k: int| 0 <= k < i ==> #[trigger] deps@[k] == Dependency::sdk_spec(names@[k]),
                decreases names@.len() - i,
            {
                deps.push(Dependency::sdk(names[i].clone()));
                i = i + 1;
            }
        },
    }
    deps
}

/// How the app is signed.
#[derive(Clone, Debug, PartialEq, Eq)]
pub enum CodeSigning {
    /// No identity and no team are known: signing is switched off.
    Disabled,
    /// Automatic signing with an identity and a team.
    Automatic { identity: String, team_id: String },
}

/// The signing identity: the manifest's, else the generic developer identity where a signing
/// team was found, else none.
pub open spec fn signing_identity(ios: IosMetadata, team_unit: Option<String>) -> Seq<char> {
    match ios.code_sign_identity {
        Some(s) => s@,
        None => if team_unit is Some {
            "iPhone Developer"@
        } else {
            Seq::empty()
        },
    }
}

/// The team: the manifest's, else the organisational unit of the signing team found, else none.
pub open spec fn signing_team(ios: IosMetadata, team_unit: Option<String>) -> Seq<char> {
    match ios.development_team {
        Some(s) => s@,
        None => match team_unit {
            Some(u) => u@,
            None => Seq::empty(),
        },
    }
}

/// How the app is signed, from the manifest and the organisational unit of the first signing
/// team found on this host, if any.
pub fn code_signing(ios: &IosMetadata, team_unit: &Option<String>) -> (r: CodeSigning)
    ensures
        (signing_identity(*ios, *team_unit).len() == 0 && signing_team(*ios, *team_unit).len() == 0)
            ==> r == CodeSigning::Disabled,
        !(signing_identity(*ios, *team_unit).len() == 0 && signing_team(*ios, *team_unit).len() == 0)
            ==> (match r {
            CodeSigning::Automatic { identity, team_id } => identity@ == signing_identity(*ios, *team_unit)
                && team_id@ == signing_team(*ios, *team_unit),
            CodeSigning::Disabled => false,
        }),
{
    let identity = match &ios.code_sign_identity {
        Some(s) => s.clone(),
        None => if team_unit.is_some() {
            String::from_str("iPhone Developer")
        } else {
            String::new()
        },
    };
    let team_id = match &ios.development_team {
        Some(s) => s.clone(),
        None => match team_unit {
            Some(u) => u.clone(),
            None => String::new(),
        },
    };
    if identity.unicode_len() == 0 && team_id.unicode_len() == 0 {
        CodeSigning::Disabled
    } else {
        CodeSigning::Automatic { identity, team_id }
    }
}

/// Where the generated project lies: `<target_dir>/<name>/<name>.xcodeproj`.
pub open spec fn project_path(target_dir: Seq<char>, name: Seq<char>) -> Seq<char> {
    target_dir + "/"@ + name + "/"@ + name + ".xcodeproj"@
}

/// The path of the generated project for a manifest, under the target directory.
pub fn xcode_project_path(target_dir: &str, toml: &Root) -> (r: String)
    ensures
        r@ == project_path(target_dir@, replace_char(library_name(*toml), '-', '_')),
{
    let name = target_name(toml);
    String::from_str(target_dir).concat("/").concat(name.as_str()).concat("/").concat(
        name.as_str(),
    ).concat(".xcodeproj")
}

} // verus!
