//! Device abstractions: device descriptions and lifecycle, the device
//! registry, discovery, protocols and concrete protocol and device logic.
pub mod device;
pub mod devices;
pub mod discovery;
pub mod protocol;
pub mod protocols;
pub mod registry;

use vstd::prelude::*;

verus! {

/// The version of the device layer.
pub const VERSION: &'static str = "0.1.0";

/// The names of the optional protocol back ends compiled into this build
/// (modbus, mqtt, opcua, serial, gpio); this build has none of them.
pub fn available_protocols() -> (r: Vec<&'static str>)
    ensures
        r@.len() == 0,
{
    Vec::new()
}

} // verus!
