//! What a caller keeps between calls: the model of each device it has
//! discovered, and the record it shows for a device.
use crate::devices::{address_text, DeviceAddress};
use crate::error::TpError;
use crate::models::{effective_brightness, on_state, DeviceResponse, LightState};
use std::collections::HashMap;
use vstd::prelude::*;

verus! {

broadcast use vstd::std_specs::hash::group_hash_axioms;

/// The directory of device models by address, which the caller owns and
/// guards.
pub struct AppState {
    /// Models by address key (see `DeviceAddress::key`).
    pub models: HashMap<u64, String>,
}

/// An error of a call made for a user.
#[derive(Debug)]
pub enum AppError {
    /// A command for a device that was never discovered
    NotFound(String),
    /// An error talking to the device
    Tp(TpError),
}

impl From<TpError> for AppError {
    fn from(err: TpError) -> (r: Self)
        ensures
            r == AppError::Tp(err),
    {
        AppError::Tp(err)
    }
}

impl vstd::std_specs::convert::FromSpecImpl<TpError> for AppError {
    open spec fn obeys_from_spec() -> bool {
        true
    }

    open spec fn from_spec(err: TpError) -> AppError {
        AppError::Tp(err)
    }
}

impl Default for AppState {
    fn default() -> (r: Self)
        ensures
            r.models@ == Map::<u64, String>::empty(),
    {
        AppState { models: HashMap::new() }
    }
}

impl AppState {
    pub fn new() -> (r: Self)
        ensures
            r.models@ == Map::<u64, String>::empty(),
    {
        AppState { models: HashMap::new() }
    }

    /// Records the model of the device at `addr`, replacing any earlier one.
    pub fn set_model(&mut self, addr: DeviceAddress, model: String)
        ensures
            final(self).models@ == old(self).models@.insert(addr.spec_key(), model),
    {
        let k = addr.key();
        self.models.insert(k, model);
    }

    /// The model recorded for `addr`; a not-found error naming the address
    /// if there is none.
    pub fn get_model(&self, addr: DeviceAddress) -> (r: Result<String, AppError>)
        ensures
            self.models@.contains_key(addr.spec_key()) ==> (r matches Ok(m) && m@
                == self.models@[addr.spec_key()]@),
            !self.models@.contains_key(addr.spec_key()) ==> (r matches Err(AppError::NotFound(t))
                && t@ == address_text(addr)),
    {
        let k = addr.key();
        match self.models.get(&k) {
            Some(m) => Ok(m.clone()),
            None => Err(AppError::NotFound(addr.to_text())),
        }
    }
}

/// The record shown for a discovered device.
#[derive(Debug)]
pub struct Device {
    pub addr: DeviceAddress,
    pub brightness: u8,
    pub hw_type: String,
    pub id: String,
    pub is_on: bool,
    pub light_state: Option<LightState>,
    pub model: String,
    pub name: String,
}

/// The record shown for what discovery found at an address.
pub open spec fn shown_device(found: (DeviceAddress, DeviceResponse)) -> Device {
    let s = found.1.system.sysinfo;
    Device {
        addr: found.0,
        brightness: effective_brightness(&s),
        hw_type: s.hw_type,
        id: s.device_id,
        is_on: on_state(&s),
        light_state: s.light_state,
        model: s.model,
        name: s.alias,
    }
}

impl From<(DeviceAddress, DeviceResponse)> for Device {
    fn from(found: (DeviceAddress, DeviceResponse)) -> (r: Self)
        ensures
            r == shown_device(found),
    {
        let (addr, resp) = found;
        let brightness = resp.system.sysinfo.brightness();
        let is_on = resp.system.sysinfo.is_on();
        let s = resp.system.sysinfo;
        Device {
            addr,
            brightness,
            hw_type: s.hw_type,
            id: s.device_id,
            is_on,
            light_state: s.light_state,
            model: s.model,
            name: s.alias,
        }
    }
}

impl vstd::std_specs::convert::FromSpecImpl<(DeviceAddress, DeviceResponse)> for Device {
    open spec fn obeys_from_spec() -> bool {
        true
    }

    open spec fn from_spec(found: (DeviceAddress, DeviceResponse)) -> Device {
        shown_device(found)
    }
}

} // verus!
