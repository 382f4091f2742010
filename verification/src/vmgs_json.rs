//! Schema of the JSON files that describe the guest state of a version 1 file.

use std::collections::HashMap;
use vstd::prelude::*;

verus! {

/// The device that holds the state of the BIOS loader.
pub const BIOS_LOADER_DEVICE_ID: &'static str = "ac6b8dc1-3257-4a70-b1b2-a9c9215659ad";

/// `serde_json::Value`, a JSON value of any shape. It is carried through as it
/// is; nothing is stated of what it holds.
#[verifier::external_type_specification]
#[verifier::external_body]
pub struct ExJsonValue(serde_json::Value);

/// The version of a file or of a device's state.
pub struct Version {
    pub major: u32,
    pub minor: u32,
}

/// One device and its states, by name.
pub struct Device {
    pub version: Version,
    pub device_type: String,
    pub states: HashMap<String, State>,
}

/// One state of a device.
pub enum State {
    /// The variables of a non-volatile memory, by vendor.
    Nvram { vendors: HashMap<String, NvramVendor>, last_update_time: String },
    /// A state of another shape.
    Other(serde_json::Value),
}

/// The variables of one vendor, by name.
pub struct NvramVendor {
    pub variables: HashMap<String, NvramVariable>,
}

/// One variable of a non-volatile memory.
pub struct NvramVariable {
    pub attributes: u32,
    pub data: Vec<u8>,
}

/// The whole of a file: its devices, by identifier.
pub struct RuntimeState {
    pub version: Version,
    pub devices: HashMap<String, Device>,
}

} // verus!
