//! The ways a deployment step fails.

use vstd::prelude::*;

use crate::native::NativeError;

verus! {

/// Why a deployment step failed.
#[derive(Clone, Debug, PartialEq, Eq)]
pub enum DeployError {
    /// No device or simulator could be chosen from the configuration and what is connected.
    NoDevice,
    /// The device management service answered with a non-zero status.
    Native(NativeError),
    /// The device is reachable but has not been paired with this host.
    UntrustedDevice,
    /// An external command exited with a failure status.
    ExternalTool { stdout: String, stderr: String },
    /// The configured device identifier is not among the connected devices.
    DeviceNotFound { device_id: String },
    /// The local app bundle does not exist or is not a directory.
    BundleNotFound { path: String },
    /// A runtime key of the simulator listing holds something other than a list of devices.
    MalformedListing { runtime_key: String },
}

} // verus!
