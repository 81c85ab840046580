//! The parts of the package manifest that the build reads, and their checks.

use vstd::prelude::*;

use crate::text::{contains, contains_str};

verus! {

/// The kind of device that the manifest asks to deploy to.
#[derive(Clone, Copy, Debug, PartialEq, Eq, Structural)]
pub enum DeviceType {
    Device,
    Simulator,
}

/// An interface orientation that the app supports.
#[derive(Clone, Copy, Debug, PartialEq, Eq, Structural)]
pub enum Orientation {
    Unknown,
    Portrait,
    PortraitUpsideDown,
    LandscapeLeft,
    LandscapeRight,
}

/// A compilation target of the library.
#[derive(Clone, Copy, Debug, PartialEq, Eq, Structural)]
pub enum Target {
    Arm,
    ArmSim,
    Sim,
}

impl Target {
    /// The target triple.
    pub open spec fn triple(self) -> Seq<char> {
        match self {
            Target::Arm => "aarch64-apple-ios"@,
            Target::ArmSim => "aarch64-apple-ios-sim"@,
            Target::Sim => "x86_64-apple-ios"@,
        }
    }

    /// The target triple that the compiler is given.
    pub fn to_rustc_target(self) -> (r: &'static str)
        ensures
            r@ == self.triple(),
    {
        match self {
            Target::Arm => "aarch64-apple-ios",
            Target::ArmSim => "aarch64-apple-ios-sim",
            Target::Sim => "x86_64-apple-ios",
        }
    }
}

/// The `lib` section of the manifest.
#[derive(Clone, Debug, PartialEq, Eq, Default)]
pub struct Lib {
    pub name: Option<String>,
    pub crate_type: Option<Vec<String>>,
}

/// The iOS section of the package metadata.
#[derive(Clone, Debug, PartialEq, Eq, Default)]
pub struct IosMetadata {
    pub build_targets: Option<Vec<Target>>,
    pub deployment_target: Option<String>,
    pub dependencies: Option<Vec<String>>,
    pub supported_interface_orientations: Option<Vec<Orientation>>,
    pub bundle_id_prefix: Option<String>,
    pub code_sign_identity: Option<String>,
    pub development_team: Option<String>,
    pub device_id: Option<String>,
    pub device_type: Option<DeviceType>,
    pub assets: Option<Vec<String>>,
}

/// The metadata section of the package.
#[derive(Clone, Debug, PartialEq, Eq, Default)]
pub struct PackageMetadata {
    pub ios: Option<IosMetadata>,
}

/// The package section of the manifest.
#[derive(Clone, Debug, PartialEq, Eq)]
pub struct Package {
    pub name: String,
    pub version: String,
    pub metadata: Option<PackageMetadata>,
}

/// The parts of the manifest that the build reads.
#[derive(Clone, Debug, PartialEq, Eq)]
pub struct Root {
    pub package: Package,
    pub lib: Option<Lib>,
}

/// What the manifest lacks.
#[derive(Clone, Copy, Debug, PartialEq, Eq, Structural)]
pub enum ManifestError {
    MissingStaticlib,
    MissingBuildTargets,
    MissingMetadata,
    MissingIosSection,
}

/// The words of `ws` joined by `sep`.
pub open spec fn joined(ws: Seq<Seq<char>>, sep: Seq<char>) -> Seq<char>
    decreases ws.len(),
{
    if ws.len() == 0 {
        Seq::empty()
    } else if ws.len() == 1 {
        ws[0]
    } else {
        joined(ws.drop_last(), sep) + sep + ws.last()
    }
}

/// The crate types that the `lib` section lists, as texts.
pub open spec fn crate_types(toml: Root) -> Seq<Seq<char>> {
    match toml.lib {
        Some(Lib { crate_type: Some(v), .. }) => v@.map_values(|s: String| s@),
        _ => Seq::empty(),
    }
}

/// The iOS section, or which part of the path to it is missing.
pub open spec fn ios_section(toml: Root) -> Result<IosMetadata, ManifestError> {
    match toml.package.metadata {
        None => Err(ManifestError::MissingMetadata),
        Some(m) => match m.ios {
            None => Err(ManifestError::MissingIosSection),
            Some(ios) => Ok(ios),
        },
    }
}

fn join_words(ws: &Vec<String>, sep: &str) -> (r: String)
    ensures
        r@ == joined(ws@.map_values(|s: String| s@), sep@),
{
    let ghost words = ws@.map_values(|s: String| s@);
    if ws.len() == 0 {
        return String::new();
    }
    let mut acc = ws[0].clone();
    let mut i: usize = 1;
    assert(words.subrange(0, 1).drop_last() =~= Seq::<Seq<char>>::empty());
    while i < ws.len()
        invariant
            words == ws@.map_values(|s: String| s@),
            1 <= i <= ws@.len(),
            acc@ == joined(words.subrange(0, i as int), sep@),
        decreases ws@.len() - i,
    {
        acc = acc.concat(sep).concat(ws[i].as_str());
        assert(words.subrange(0, i + 1).drop_last() =~= words.subrange(0, i as int));
        i = i + 1;
    }
    assert(words.subrange(0, ws@.len() as int) =~= words);
    acc
}

impl Root {
    /// The manifest, if its library is built as a static library (among its crate types).
    pub fn validate_crate_type(self) -> (r: Result<Self, ManifestError>)
        ensures
            contains(joined(crate_types(self), " "@), "staticlib"@) ==> r == Ok::<Root, ManifestError>(self),
            !contains(joined(crate_types(self), " "@), "staticlib"@) ==> r == Err::<Root, ManifestError>(
                ManifestError::MissingStaticlib,
            ),
    {
        let types = match &self.lib {
            Some(Lib { crate_type: Some(v), .. }) => join_words(v, " "),
            _ => {
                assert(joined(crate_types(self), " "@) =~= Seq::<char>::empty());
                String::new()
            },
        };
        if !contains_str(types.as_str(), "staticlib") {
            return Err(ManifestError::MissingStaticlib);
        }
        Ok(self)
    }

    /// The manifest, if its iOS section lists at least one build target.
    pub fn validate_build_targets(self) -> (r: Result<Self, ManifestError>)
        ensures
            match ios_section(self) {
                Err(e) => r == Err::<Root, ManifestError>(e),
                Ok(ios) => match ios.build_targets {
                    Some(t) if t@.len() > 0 => r == Ok::<Root, ManifestError>(self),
                    _ => r == Err::<Root, ManifestError>(ManifestError::MissingBuildTargets),
                },
            },
    {
        let ok = match self.ios_metadata() {
            Err(e) => return Err(e),
            Ok(ios) => match &ios.build_targets {
                Some(t) => t.len() > 0,
                None => false,
            },
        };
        if !ok {
            return Err(ManifestError::MissingBuildTargets);
        }
        Ok(self)
    }

    /// The iOS section of the package metadata.
    pub fn ios_metadata(&self) -> (r: Result<&IosMetadata, ManifestError>)
        ensures
            match ios_section(*self) {
                Ok(ios) => r is Ok && *r.unwrap() == ios,
                Err(e) => r is Err && r.unwrap_err() == e,
            },
    {
        match &self.package.metadata {
            None => Err(ManifestError::MissingMetadata),
            Some(m) => match &m.ios {
                None => Err(ManifestError::MissingIosSection),
                Some(ios) => Ok(ios),
            },
        }
    }
}

} // verus!
