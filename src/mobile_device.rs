//! Physical devices: reading the identity of a connected device into a record.

use vstd::prelude::*;

verus! {

/// How a physical device is attached to this host.
#[derive(Clone, Copy, Debug, PartialEq, Eq, Structural)]
pub enum DeviceConnectionType {
    Usb,
    Network,
}

/// A connected physical device, as its identity attributes describe it.
#[derive(Clone, Debug, PartialEq, Eq)]
pub struct MobileDevice {
    pub identifier: String,
    pub device_name: String,
    pub connection_type: DeviceConnectionType,
    pub cpu_architecture: String,
    pub device_class: String,
    pub product_version: String,
    pub model: String,
}

impl MobileDevice {
    /// A copy of this record.
    pub fn duplicate(&self) -> (r: MobileDevice)
        ensures
            r == *self,
    {
        MobileDevice {
            identifier: self.identifier.clone(),
            device_name: self.device_name.clone(),
            connection_type: self.connection_type,
            cpu_architecture: self.cpu_architecture.clone(),
            device_class: self.device_class.clone(),
            product_version: self.product_version.clone(),
            model: self.model.clone(),
        }
    }
}


/// An identity attribute read from a connected device.
#[derive(Clone, Copy, Debug, PartialEq, Eq, Structural)]
pub enum IdentityKey {
    DeviceName,
    CpuArchitecture,
    DeviceClass,
    ProductVersion,
    HardwareModel,
}

/// A request made while reading the identity of one device handle.
#[derive(Clone, Copy, Debug, PartialEq, Eq, Structural)]
pub enum IdentityCall {
    CopyDeviceIdentifier,
    GetInterfaceType,
    CopyValue(IdentityKey),
    Disconnect,
}

impl IdentityKey {
    /// The key under which the device management service keeps the attribute.
    pub open spec fn key_text(self) -> Seq<char> {
        match self {
            IdentityKey::DeviceName => "DeviceName"@,
            IdentityKey::CpuArchitecture => "CPUArchitecture"@,
            IdentityKey::DeviceClass => "DeviceClass"@,
            IdentityKey::ProductVersion => "ProductVersion"@,
            IdentityKey::HardwareModel => "HardwareModel"@,
        }
    }

    /// The key under which the device management service keeps the attribute.
    pub fn name(self) -> (r: &'static str)
        ensures
            r@ == self.key_text(),
    {
        match self {
            IdentityKey::DeviceName => "DeviceName",
            IdentityKey::CpuArchitecture => "CPUArchitecture",
            IdentityKey::DeviceClass => "DeviceClass",
            IdentityKey::ProductVersion => "ProductVersion",
            IdentityKey::HardwareModel => "HardwareModel",
        }
    }
}

/// The calls that follow a connection attempt: none when it failed; else the identifier, the
/// interface type and the five attributes are read, and the connection is closed.
pub open spec fn identity_reads(connect_code: i32) -> Seq<IdentityCall> {
    if connect_code != 0 {
        Seq::empty()
    } else {
        seq![
            IdentityCall::CopyDeviceIdentifier,
            IdentityCall::GetInterfaceType,
            IdentityCall::CopyValue(IdentityKey::DeviceName),
            IdentityCall::CopyValue(IdentityKey::CpuArchitecture),
            IdentityCall::CopyValue(IdentityKey::DeviceClass),
            IdentityCall::CopyValue(IdentityKey::ProductVersion),
            IdentityCall::CopyValue(IdentityKey::HardwareModel),
            IdentityCall::Disconnect,
        ]
    }
}

/// The calls to make on a device handle after `Connect` was answered with `connect_code`.
pub fn identity_plan(connect_code: i32) -> (r: Vec<IdentityCall>)
    ensures
        r@ == identity_reads(connect_code),
{
    if connect_code != 0 {
        return Vec::new();
    }
    let r = vec![
        IdentityCall::CopyDeviceIdentifier,
        IdentityCall::GetInterfaceType,
        IdentityCall::CopyValue(IdentityKey::DeviceName),
        IdentityCall::CopyValue(IdentityKey::CpuArchitecture),
        IdentityCall::CopyValue(IdentityKey::DeviceClass),
        IdentityCall::CopyValue(IdentityKey::ProductVersion),
        IdentityCall::CopyValue(IdentityKey::HardwareModel),
        IdentityCall::Disconnect,
    ];
    assert(r@ =~= identity_reads(connect_code));
    r
}

/// What the reads of a connected device answered.
pub struct IdentityReadings {
    pub identifier: Option<String>,
    pub interface_type: i32,
    pub device_name: Option<String>,
    pub cpu_architecture: Option<String>,
    pub device_class: Option<String>,
    pub product_version: Option<String>,
    pub model: Option<String>,
    pub disconnect_code: i32,
}

/// The connection that an interface type stands for: `1` is a direct (USB) link, `2` an
/// indirect (network) one; any other value is not supported.
pub open spec fn connection_of(interface_type: i32) -> Option<DeviceConnectionType> {
    if interface_type == 1 {
        Some(DeviceConnectionType::Usb)
    } else if interface_type == 2 {
        Some(DeviceConnectionType::Network)
    } else {
        None
    }
}

/// The connection that an interface type stands for.
pub fn connection_type_of(interface_type: i32) -> (r: Option<DeviceConnectionType>)
    ensures
        r == connection_of(interface_type),
{
    if interface_type == 1 {
        Some(DeviceConnectionType::Usb)
    } else if interface_type == 2 {
        Some(DeviceConnectionType::Network)
    } else {
        None
    }
}

/// Whether every read resolved and the connection was closed cleanly.
pub open spec fn identity_complete(r: IdentityReadings) -> bool {
    &&& r.identifier is Some
    &&& connection_of(r.interface_type) is Some
    &&& r.device_name is Some
    &&& r.cpu_architecture is Some
    &&& r.device_class is Some
    &&& r.product_version is Some
    &&& r.model is Some
    &&& r.disconnect_code == 0
}

fn take_text(t: &Option<String>) -> (r: String)
    requires
        t is Some,
    ensures
        r == t.unwrap(),
{
    match t {
        Some(s) => s.clone(),
        None => String::new(),
    }
}

impl MobileDevice {
    /// The record of a device whose identity was read: every attribute must have resolved,
    /// else the device is left out.
    pub fn from_identity(r: &IdentityReadings) -> (d: Option<MobileDevice>)
        ensures
            identity_complete(*r) <==> d is Some,
            d is Some ==> d.unwrap() == (MobileDevice {
                identifier: r.identifier.unwrap(),
                device_name: r.device_name.unwrap(),
                connection_type: connection_of(r.interface_type).unwrap(),
                cpu_architecture: r.cpu_architecture.unwrap(),
                device_class: r.device_class.unwrap(),
                product_version: r.product_version.unwrap(),
                model: r.model.unwrap(),
            }),
    {
        let connection_type = match connection_type_of(r.interface_type) {
            Some(c) => c,
            None => return None,
        };
        if r.identifier.is_none() || r.device_name.is_none() || r.cpu_architecture.is_none()
            || r.device_class.is_none() || r.product_version.is_none() || r.model.is_none()
            || r.disconnect_code != 0 {
            return None;
        }
        Some(MobileDevice {
            identifier: take_text(&r.identifier),
            device_name: take_text(&r.device_name),
            connection_type,
            cpu_architecture: take_text(&r.cpu_architecture),
            device_class: take_text(&r.device_class),
            product_version: take_text(&r.product_version),
            model: take_text(&r.model),
        })
    }
}

} // verus!
