//! The events and records that discovery reports to its listeners.
use crate::devices::DeviceAddress;
use crate::models::{on_state, DeviceResponse};
use vstd::prelude::*;

verus! {

/// A discovery run starting or ending.
#[derive(Clone, Copy, Debug, PartialEq, Eq, Structural)]
pub enum DiscoverEvent {
    Start,
    End,
}

/// The short record of a discovered device.
#[derive(Debug)]
pub struct Device {
    pub addr: DeviceAddress,
    pub id: String,
    pub model: String,
    pub name: String,
    pub brightness: Option<u8>,
    pub is_on: bool,
}

/// The short record of what discovery found at an address.
pub open spec fn short_record(found: (DeviceAddress, DeviceResponse)) -> Device {
    let s = found.1.system.sysinfo;
    Device {
        addr: found.0,
        id: s.device_id,
        model: s.model,
        name: s.alias,
        brightness: s.brightness,
        is_on: on_state(&s),
    }
}

impl From<(DeviceAddress, DeviceResponse)> for Device {
    fn from(found: (DeviceAddress, DeviceResponse)) -> (r: Self)
        ensures
            r == short_record(found),
    {
        let (addr, resp) = found;
        let is_on = resp.system.sysinfo.is_on();
        let s = resp.system.sysinfo;
        Device { addr, id: s.device_id, model: s.model, name: s.alias, brightness: s.brightness, is_on }
    }
}

impl vstd::std_specs::convert::FromSpecImpl<(DeviceAddress, DeviceResponse)> for Device {
    open spec fn obeys_from_spec() -> bool {
        true
    }

    open spec fn from_spec(found: (DeviceAddress, DeviceResponse)) -> Device {
        short_record(found)
    }
}

} // verus!
