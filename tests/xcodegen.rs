use cargo_xcodebuild::manifest::{
    DeviceType, IosMetadata, Lib, ManifestError, Package, PackageMetadata, Root, Target,
};
use cargo_xcodebuild::xcodegen::{
    bool_to_word, code_signing, deployment_target, project_options, sdk_dependencies, target_name,
    xcode_project_path, CodeSigning, Dependency, DependencyType, TargetConfig, TargetScheme,
    TargetSetting,
};

fn root(lib: Option<Lib>, ios: Option<IosMetadata>) -> Root {
    Root {
        package: Package {
            name: "xcodebuild-examples".to_string(),
            version: "0.1.0".to_string(),
            metadata: Some(PackageMetadata { ios }),
        },
        lib,
    }
}

fn strings(v: &[&str]) -> Vec<String> {
    v.iter().map(|s| s.to_string()).collect()
}

#[test]
fn sdk_and_target_dependencies() {
    let d = Dependency::sdk("UIKit.framework".to_string());
    assert_eq!(d.dependency_type, DependencyType::Sdk("UIKit.framework".to_string()));
    assert_eq!(d.embed, None);
    let t = Dependency::target("Other".to_string(), true);
    assert_eq!(t.dependency_type, DependencyType::Target("Other".to_string()));
    assert_eq!(t.embed, Some(true));
}

#[test]
fn base_settings_link_library() {
    let s = TargetSetting::base("my_app", "../src/");
    assert!(!s.enable_bitcode);
    assert_eq!(s.clang_cxx_language_standard, "c++11");
    assert_eq!(s.clang_cxx_library, "libc++");
    assert_eq!(s.other_ldflags, strings(&["$(INHERITED)", "-lc++abi", "-lmy_app"]));
    assert_eq!(s.header_search_paths, strings(&["$(INHERITED)", "../src/"]));
}

#[test]
fn release_and_debug_search_paths() {
    let r = TargetConfig::release();
    assert_eq!(r.library_search_paths_arm, strings(&["$(INHERITED)", "../../aarch64-apple-ios/release"]));
    assert_eq!(
        r.library_search_paths_arm_sim,
        strings(&["$(INHERITED)", "../../aarch64-apple-ios-sim/release"])
    );
    assert_eq!(r.library_search_paths_x86, strings(&["$(INHERITED)", "../../x86_64-apple-ios/release"]));
    let d = TargetConfig::debug();
    assert_eq!(d.library_search_paths_arm, strings(&["$(INHERITED)", "../../aarch64-apple-ios/debug"]));
    assert_eq!(
        d.library_search_paths_arm_sim,
        strings(&["$(INHERITED)", "../../aarch64-apple-ios-sim/debug"])
    );
    assert_eq!(d.library_search_paths_x86, strings(&["$(INHERITED)", "../../x86_64-apple-ios/debug"]));
}

#[test]
fn default_scheme_variables() {
    let s = TargetScheme::default();
    assert_eq!(s.environment_variables.len(), 2);
    assert_eq!(s.environment_variables[0].variable, "RUST_BACKTRACE");
    assert_eq!(s.environment_variables[0].value, "full");
    assert_eq!(s.environment_variables[1].variable, "RUST_LOG");
    assert_eq!(s.environment_variables[1].value, "info");
    assert!(s.environment_variables.iter().all(|v| v.is_enabled));
}

#[test]
fn boolean_words() {
    assert_eq!(bool_to_word(true), "YES");
    assert_eq!(bool_to_word(false), "NO");
}

#[test]
fn target_name_prefers_lib_name() {
    let with_lib = root(Some(Lib { name: Some("my-lib".to_string()), crate_type: None }), None);
    assert_eq!(target_name(&with_lib), "my_lib");
    let without = root(None, None);
    assert_eq!(target_name(&without), "xcodebuild_examples");
    assert_eq!(
        xcode_project_path("target/xcodegen", &without),
        "target/xcodegen/xcodebuild_examples/xcodebuild_examples.xcodeproj"
    );
}

#[test]
fn crate_type_must_include_staticlib() {
    let ok = root(Some(Lib { name: None, crate_type: Some(strings(&["staticlib", "cdylib"])) }), None);
    assert!(ok.validate_crate_type().is_ok());
    let bad = root(Some(Lib { name: None, crate_type: Some(strings(&["cdylib"])) }), None);
    assert_eq!(bad.validate_crate_type(), Err(ManifestError::MissingStaticlib));
    assert_eq!(root(None, None).validate_crate_type(), Err(ManifestError::MissingStaticlib));
}

#[test]
fn build_targets_must_be_listed() {
    let ios = IosMetadata { build_targets: Some(vec![Target::Arm, Target::ArmSim]), ..Default::default() };
    assert!(root(None, Some(ios)).validate_build_targets().is_ok());
    let empty = IosMetadata { build_targets: Some(vec![]), ..Default::default() };
    assert_eq!(
        root(None, Some(empty)).validate_build_targets(),
        Err(ManifestError::MissingBuildTargets)
    );
    assert_eq!(
        root(None, None).validate_build_targets(),
        Err(ManifestError::MissingIosSection)
    );
    let no_metadata = Root {
        package: Package { name: "p".to_string(), version: "0.1.0".to_string(), metadata: None },
        lib: None,
    };
    assert_eq!(no_metadata.ios_metadata(), Err(ManifestError::MissingMetadata));
}

#[test]
fn rustc_targets() {
    assert_eq!(Target::Arm.to_rustc_target(), "aarch64-apple-ios");
    assert_eq!(Target::ArmSim.to_rustc_target(), "aarch64-apple-ios-sim");
    assert_eq!(Target::Sim.to_rustc_target(), "x86_64-apple-ios");
}

#[test]
fn project_defaults() {
    let ios = IosMetadata::default();
    assert_eq!(project_options(&ios).bundle_id_prefix, "com.rust");
    assert_eq!(deployment_target(&ios), "12");
    assert!(sdk_dependencies(&ios).is_empty());
    let ios = IosMetadata {
        bundle_id_prefix: Some("org.example".to_string()),
        deployment_target: Some("15".to_string()),
        dependencies: Some(strings(&["UIKit.framework", "Metal.framework"])),
        device_id: Some("ABC".to_string()),
        device_type: Some(DeviceType::Simulator),
        ..Default::default()
    };
    assert_eq!(project_options(&ios).bundle_id_prefix, "org.example");
    assert_eq!(deployment_target(&ios), "15");
    let deps = sdk_dependencies(&ios);
    assert_eq!(deps.len(), 2);
    assert_eq!(deps[1].dependency_type, DependencyType::Sdk("Metal.framework".to_string()));
}

#[test]
fn signing_choices() {
    let none = IosMetadata::default();
    assert_eq!(code_signing(&none, &None), CodeSigning::Disabled);
    assert_eq!(
        code_signing(&none, &Some("TEAM123".to_string())),
        CodeSigning::Automatic {
            identity: "iPhone Developer".to_string(),
            team_id: "TEAM123".to_string()
        }
    );
    let manual = IosMetadata {
        code_sign_identity: Some("Apple Development".to_string()),
        development_team: Some("XYZ".to_string()),
        ..Default::default()
    };
    assert_eq!(
        code_signing(&manual, &Some("TEAM123".to_string())),
        CodeSigning::Automatic { identity: "Apple Development".to_string(), team_id: "XYZ".to_string() }
    );
}
