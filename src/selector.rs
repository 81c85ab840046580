//! The choice of the device that a deployment run targets.

use vstd::prelude::*;

use crate::devices::{DeviceState, SimulatorDevice};
use crate::error::DeployError;
use crate::manifest::DeviceType;
use crate::mobile_device::MobileDevice;

verus! {

/// The device that a deployment run targets.
#[derive(Clone, Debug, PartialEq, Eq)]
pub enum SelectedDevice {
    Device(MobileDevice),
    Simulator { udid: String },
}

/// `i` is the position of the first device whose identifier is `id`.
pub open spec fn is_first_with_id(devices: Seq<MobileDevice>, id: Seq<char>, i: int) -> bool {
    &&& 0 <= i < devices.len()
    &&& devices[i].identifier@ == id
    &&& forall|k: int| 0 <= k < i ==> devices[k].identifier@ != id
}

/// `i` is the position of the first booted simulator.
pub open spec fn is_first_booted(simulators: Seq<SimulatorDevice>, i: int) -> bool {
    &&& 0 <= i < simulators.len()
    &&& simulators[i].state == DeviceState::Booted
    &&& forall|k: int| 0 <= k < i ==> simulators[k].state != DeviceState::Booted
}

/// Whether `r` is the outcome of looking up `id` among the connected devices: the first device
/// with that identifier, or `DeviceNotFound` when none has it.
pub open spec fn looked_up(
    devices: Seq<MobileDevice>,
    id: Seq<char>,
    r: Result<SelectedDevice, DeployError>,
) -> bool {
    if exists|i: int| #[trigger] is_first_with_id(devices, id, i) {
        exists|i: int| #[trigger] is_first_with_id(devices, id, i) && r == Ok::<SelectedDevice, DeployError>(SelectedDevice::Device(devices[i]))
    } else {
        match r {
            Err(DeployError::DeviceNotFound { device_id }) => device_id@ == id,
            _ => false,
        }
    }
}

/// Whether `r` is the outcome of the default policy: the first connected device, else the first
/// booted simulator, else `NoDevice`.
pub open spec fn picked_by_default(
    devices: Seq<MobileDevice>,
    simulators: Seq<SimulatorDevice>,
    r: Result<SelectedDevice, DeployError>,
) -> bool {
    if devices.len() > 0 {
        r == Ok::<SelectedDevice, DeployError>(SelectedDevice::Device(devices[0]))
    } else if exists|i: int| #[trigger] is_first_booted(simulators, i) {
        exists|i: int| #[trigger] is_first_booted(simulators, i) && match r {
            Ok(SelectedDevice::Simulator { udid }) => udid@ == simulators[i].udid@,
            _ => false,
        }
    } else {
        r == Err::<SelectedDevice, DeployError>(DeployError::NoDevice)
    }
}

/// Whether `r` is the target that the configuration and the discovered devices call for.
pub open spec fn target_selected(
    device_id: Option<String>,
    device_type: Option<DeviceType>,
    devices: Seq<MobileDevice>,
    simulators: Seq<SimulatorDevice>,
    r: Result<SelectedDevice, DeployError>,
) -> bool {
    match (device_id, device_type) {
        (Some(id), Some(DeviceType::Simulator)) => match r {
            Ok(SelectedDevice::Simulator { udid }) => udid@ == id@,
            _ => false,
        },
        (Some(id), Some(DeviceType::Device)) => looked_up(devices, id@, r),
        _ => picked_by_default(devices, simulators, r),
    }
}

fn find_by_id(devices: &Vec<MobileDevice>, id: &String) -> (r: Result<SelectedDevice, DeployError>)
    ensures
        looked_up(devices@, id@, r),
{
    let mut i: usize = 0;
    while i < devices.len()
        invariant
            i <= devices@.len(),
            forall|k: int| 0 <= k < i ==> devices@[k].identifier@ != id@,
        decreases devices@.len() - i,
    {
        if devices[i].identifier == *id {
            assert(is_first_with_id(devices@, id@, i as int));
            return Ok(SelectedDevice::Device(devices[i].duplicate()));
        }
        i = i + 1;
    }
    assert forall|j: int| !is_first_with_id(devices@, id@, j) by {}
    Err(DeployError::DeviceNotFound { device_id: id.clone() })
}

fn first_booted(simulators: &Vec<SimulatorDevice>) -> (r: Result<SelectedDevice, DeployError>)
    ensures
        picked_by_default(Seq::empty(), simulators@, r),
{
    let mut i: usize = 0;
    while i < simulators.len()
        invariant
            i <= simulators@.len(),
            forall|k: int| 0 <= k < i ==> simulators@[k].state != DeviceState::Booted,
        decreases simulators@.len() - i,
    {
        if simulators[i].state == DeviceState::Booted {
            assert(is_first_booted(simulators@, i as int));
            return Ok(SelectedDevice::Simulator { udid: simulators[i].udid.clone() });
        }
        i = i + 1;
    }
    assert forall|j: int| !is_first_booted(simulators@, j) by {}
    Err(DeployError::NoDevice)
}

/// Chooses the device to deploy to. A configuration that names both an identifier and a device
/// type is followed: a simulator is taken as named, without looking it up; a physical device must
/// be among the connected ones. Otherwise the first connected device is chosen, else the first
/// booted simulator.
pub fn find_device(
    device_id: &Option<String>,
    device_type: Option<DeviceType>,
    devices: &Vec<MobileDevice>,
    simulators: &Vec<SimulatorDevice>,
) -> (r: Result<SelectedDevice, DeployError>)
    ensures
        target_selected(*device_id, device_type, devices@, simulators@, r),
{
    match (device_id, device_type) {
        (Some(id), Some(DeviceType::Simulator)) => Ok(SelectedDevice::Simulator { udid: id.clone() }),
        (Some(id), Some(DeviceType::Device)) => find_by_id(devices, id),
        _ => {
            if devices.len() > 0 {
                Ok(SelectedDevice::Device(devices[0].duplicate()))
            } else {
                first_booted(simulators)
            }
        },
    }
}

} // verus!
