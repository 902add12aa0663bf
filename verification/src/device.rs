//! The Metal 4 compute device.

use vstd::prelude::*;

verus! {

/// Identifies a device: its type and its index among devices of that type.
#[derive(Debug, Clone, Copy, PartialEq, Eq, Structural)]
pub struct DeviceId {
    pub type_id: u16,
    pub index_id: u32,
}

/// The (single) Metal 4 compute device.
#[derive(Debug, Clone, Copy, PartialEq, Eq, Structural, Hash)]
pub struct Metal4Device;

impl Default for Metal4Device {
    fn default() -> (r: Self)
        ensures
            r == Metal4Device,
    {
        Metal4Device
    }
}

impl Metal4Device {
    /// The device for an id: there is only one.
    pub fn from_id(device_id: DeviceId) -> (r: Self)
        ensures
            r == Metal4Device,
    {
        Metal4Device
    }

    /// The id of the device: type 0, index 0.
    pub fn to_id(&self) -> (r: DeviceId)
        ensures
            r == (DeviceId { type_id: 0, index_id: 0 }),
    {
        DeviceId { type_id: 0, index_id: 0 }
    }

    /// Number of devices of a type: Apple silicon exposes one compute device.
    pub fn device_count(type_id: u16) -> (r: usize)
        ensures
            r == 1,
    {
        1
    }
}

} // verus!
