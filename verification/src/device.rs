//! What the network manager reports of its devices, and the two scans made
//! over them: whether any device is connected, and which one is a Wi-Fi radio.

use crate::error::SetupError;
use rusty_network_manager::DeviceType;
use rusty_network_manager::State;
use vstd::prelude::*;

verus! {

/// The kind of a device, as far as setup tells kinds apart.
#[derive(Clone, Copy, Debug, PartialEq, Eq, Structural)]
pub enum DeviceKind {
    /// A Wi-Fi radio.
    WiFi,
    /// A device of no particular kind.
    Generic,
    /// Any other kind the network manager knows.
    Other,
}

/// The state of a device, as far as setup tells states apart.
#[derive(Clone, Copy, Debug, PartialEq, Eq, Structural)]
pub enum DeviceState {
    /// The state is not known.
    Unknown,
    /// The device has a fully established connection.
    Activated,
    /// Any other state the network manager knows.
    Other,
}

/// The kind that a device-type code stands for; `None` for a code that the
/// network manager's bindings do not know.
pub open spec fn kind_of_code(code: u32) -> Option<DeviceKind> {
    if code == 2 {
        Some(DeviceKind::WiFi)
    } else if code == 14 {
        Some(DeviceKind::Generic)
    } else if code == 1 || 5 <= code <= 20 {
        Some(DeviceKind::Other)
    } else {
        None
    }
}

/// The state that a device-state code stands for; `None` for a code that the
/// network manager's bindings do not know.
pub open spec fn state_of_code(code: u32) -> Option<DeviceState> {
    if code == 0 {
        Some(DeviceState::Unknown)
    } else if code == 100 {
        Some(DeviceState::Activated)
    } else if code <= 120 && code % 10 == 0 {
        Some(DeviceState::Other)
    } else {
        None
    }
}

/// The kind of a device whose type was read as `reading`; `None` stands for a
/// device whose type could not be read. A failed reading counts as code 0, and
/// an unknown code as a generic device.
pub open spec fn kind_of_reading(reading: Option<u32>) -> DeviceKind {
    let code = match reading {
        Some(code) => code,
        None => 0,
    };
    match kind_of_code(code) {
        Some(kind) => kind,
        None => DeviceKind::Generic,
    }
}

/// The state of a device whose state was read as `reading`; `None` stands for
/// a device whose state could not be read. A failed reading and an unknown
/// code both count as an unknown state.
pub open spec fn state_of_reading(reading: Option<u32>) -> DeviceState {
    match reading {
        Some(code) => match state_of_code(code) {
            Some(state) => state,
            None => DeviceState::Unknown,
        },
        None => DeviceState::Unknown,
    }
}

/// Whether a device with this type reading is a Wi-Fi radio.
pub open spec fn reads_wifi(reading: Option<u32>) -> bool {
    kind_of_reading(reading) == DeviceKind::WiFi
}

/// Whether a device with this state reading is activated.
pub open spec fn reads_activated(reading: Option<u32>) -> bool {
    state_of_reading(reading) == DeviceState::Activated
}

/// `DeviceType::from_code` of rusty_network_manager maps code 2 to `WiFi`, 14
/// to `Generic`, 1 and 5 to 20 to its other variants, and every other code to
/// `None`.
#[verifier::external_body]
fn kind_from_code(code: u32) -> (kind: Option<DeviceKind>)
    ensures
        kind == kind_of_code(code),
{
    match DeviceType::from_code(code) {
        Some(DeviceType::WiFi) => Some(DeviceKind::WiFi),
        Some(DeviceType::Generic) => Some(DeviceKind::Generic),
        Some(_) => Some(DeviceKind::Other),
        None => None,
    }
}

/// `State::from_code` of rusty_network_manager maps code 0 to `Unknown`, 100
/// to `Activated`, the other multiples of ten up to 120 to its other variants,
/// and every other code to `None`.
#[verifier::external_body]
fn state_from_code(code: u32) -> (state: Option<DeviceState>)
    ensures
        state == state_of_code(code),
{
    match State::from_code(code) {
        Some(State::Unknown) => Some(DeviceState::Unknown),
        Some(State::Activated) => Some(DeviceState::Activated),
        Some(_) => Some(DeviceState::Other),
        None => None,
    }
}

/// Classifies a device by the reading of its type.
pub fn device_kind(reading: Option<u32>) -> (kind: DeviceKind)
    ensures
        kind == kind_of_reading(reading),
{
    let code: u32 = match reading {
        Some(code) => code,
        None => 0,
    };
    match kind_from_code(code) {
        Some(kind) => kind,
        None => DeviceKind::Generic,
    }
}

/// Classifies a device by the reading of its state.
pub fn device_state(reading: Option<u32>) -> (state: DeviceState)
    ensures
        state == state_of_reading(reading),
{
    match reading {
        Some(code) => match state_from_code(code) {
            Some(state) => state,
            None => DeviceState::Unknown,
        },
        None => DeviceState::Unknown,
    }
}

/// Whether the device is a Wi-Fi radio. A device whose type could not be read
/// is not.
pub fn is_wifi_device(reading: Option<u32>) -> (wifi: bool)
    ensures
        wifi == reads_wifi(reading),
        wifi <==> reading == Some(2u32),
{
    device_kind(reading) == DeviceKind::WiFi
}

/// Whether the device is activated. A device whose state could not be read is
/// taken to be down.
pub fn is_activated(reading: Option<u32>) -> (activated: bool)
    ensures
        activated == reads_activated(reading),
        activated <==> reading == Some(100u32),
{
    device_state(reading) == DeviceState::Activated
}

/// Probes connectivity: whether any of the devices is activated. The scan
/// stops at the first activated device; a failed reading never ends it.
pub fn network_connected(states: &Vec<Option<u32>>) -> (connected: bool)
    ensures
        connected <==> exists|i: int| 0 <= i < states.len() && reads_activated(#[trigger] states[i]),
        (forall|i: int| 0 <= i < states.len() ==> (#[trigger] states[i]) is None) ==> !connected,
{
    let mut i: usize = 0;
    while i < states.len()
        invariant
            i <= states.len(),
            forall|j: int| 0 <= j < i ==> !reads_activated(#[trigger] states[j]),
        decreases states.len() - i,
    {
        if is_activated(states[i]) {
            return true;
        }
        i += 1;
    }
    false
}

/// Selects the radio for the access point: the first device that reads as
/// Wi-Fi. Devices whose type could not be read are passed over. Without any
/// Wi-Fi device, setup cannot go on.
pub fn select_wifi_device(types: &Vec<Option<u32>>) -> (selected: Result<usize, SetupError>)
    ensures
        match selected {
            Ok(index) => {
                &&& index < types.len()
                &&& reads_wifi(types[index as int])
                &&& forall|j: int| 0 <= j < index ==> !reads_wifi(#[trigger] types[j])
            },
            Err(error) => {
                &&& error == SetupError::DeviceDiscovery
                &&& forall|j: int| 0 <= j < types.len() ==> !reads_wifi(#[trigger] types[j])
            },
        },
        selected is Ok <==> exists|i: int| 0 <= i < types.len() && reads_wifi(#[trigger] types[i]),
        forall|k: int|
            0 <= k < types.len() && reads_wifi(#[trigger] types[k]) && (forall|j: int|
                0 <= j < types.len() && j != k ==> (#[trigger] types[j]) is None) ==> selected == Ok::<
                usize,
                SetupError,
            >(k as usize),
{
    let mut i: usize = 0;
    while i < types.len()
        invariant
            i <= types.len(),
            forall|j: int| 0 <= j < i ==> !reads_wifi(#[trigger] types[j]),
        decreases types.len() - i,
    {
        if is_wifi_device(types[i]) {
            return Ok(i);
        }
        i += 1;
    }
    Err(SetupError::DeviceDiscovery)
}

} // verus!
