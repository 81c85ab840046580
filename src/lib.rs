//! Deployment of a built iOS app to a connected device or a simulator.

pub mod devices;
pub mod error;
pub mod manifest;
pub mod mobile_device;
pub mod native;
pub mod selector;
pub mod session;
pub mod text;
pub mod xcodebuild;
pub mod xcodegen;
