//! The operations that a user interface invokes, keyed by the address of a
//! device whose model the caller's directory holds.
use crate::capabilities::{toggled, sent_one, CommonCapabilities, ControlParams, Dimmable, Link, Transport};
use crate::protocol::reply_accepted;
use crate::requests::{request_text, Request};
use crate::devices::{address_text, family_of, Device, DeviceAddress, ModelFamily};
use crate::error::TpError;
use crate::models::DeviceResponse;
use crate::state::{shown_device, AppError, AppState};
use vstd::prelude::*;

verus! {

broadcast use vstd::std_specs::hash::group_hash_axioms;

/// The directory after recording the model of each of the first `i` entries,
/// later entries replacing earlier ones at the same address.
pub open spec fn models_after(
    models: Map<u64, String>,
    found: Seq<(DeviceAddress, DeviceResponse)>,
    i: nat,
) -> Map<u64, String>
    decreases i,
{
    if i == 0 {
        models
    } else {
        models_after(models, found, (i - 1) as nat).insert(
            found[i - 1].0.spec_key(),
            found[i - 1].1.system.sysinfo.model,
        )
    }
}

/// Records the model of every device that a discovery cycle found, and
/// returns the record shown for each, in order.
pub fn discover(state: &mut AppState, found: Vec<(DeviceAddress, DeviceResponse)>) -> (r: Vec<
    crate::state::Device,
>)
    ensures
        final(state).models@ == models_after(old(state).models@, found@, found@.len()),
        r@.len() == found@.len(),
        forall|k: int| 0 <= k < r@.len() ==> #[trigger] r@[k] == shown_device(found@[k]),
{
    let ghost all = found@;
    let ghost m0 = state.models@;
    let mut rest = found;
    let mut out: Vec<crate::state::Device> = Vec::new();
    let mut i: usize = 0;
    let n = rest.len();
    while rest.len() > 0
        invariant
            n == all.len(),
            i + rest@.len() == n,
            rest@ == all.subrange(i as int, n as int),
            state.models@ == models_after(m0, all, i as nat),
            out@.len() == i,
            forall|k: int| 0 <= k < i ==> #[trigger] out@[k] == shown_device(all[k]),
        decreases rest@.len(),
    {
        let entry = rest.remove(0);
        assert(all[i as int] == entry);
        assert(rest@ =~= all.subrange(i as int + 1, n as int));
        let model = entry.1.system.sysinfo.model.clone();
        state.set_model(entry.0, model);
        out.push(crate::state::Device::from(entry));
        i = i + 1;
    }
    out
}

/// Sets the brightness of the device at `addr`. Fails without sending
/// anything when the directory has no model for the address, when the model
/// is unknown, or when the device does not dim.
pub fn set_brightness<T: Transport>(
    state: &AppState,
    link: &mut Link<T>,
    addr: DeviceAddress,
    brightness: u8,
) -> (r: Result<(), AppError>)
    ensures
        (!state.models@.contains_key(addr.spec_key()) || family_of(
            state.models@[addr.spec_key()]@,
        ) is None || family_of(state.models@[addr.spec_key()]@) == Some(ModelFamily::Plug))
            ==> final(link).log() == old(link).log(),
        state.models@.contains_key(addr.spec_key()) && (family_of(
            state.models@[addr.spec_key()]@,
        ) == Some(ModelFamily::Switch) || family_of(state.models@[addr.spec_key()]@) == Some(
            ModelFamily::Bulb,
        )) ==> {
            &&& sent_one(
                old(link).log(),
                final(link).log(),
                addr,
                request_text(Request::SetBrightness(brightness)),
            )
            &&& (r is Ok <==> (final(link).log().last().2 matches Ok(doc) && reply_accepted(
                doc,
                "/smartlife.iot.dimmer/set_brightness"@,
            )))
        },
        !state.models@.contains_key(addr.spec_key()) ==> (r matches Err(AppError::NotFound(t))
            && t@ == address_text(addr)),
        state.models@.contains_key(addr.spec_key()) && family_of(
            state.models@[addr.spec_key()]@,
        ) is None ==> (r matches Err(AppError::Tp(TpError::UnknownModel(m))) && m@
            == state.models@[addr.spec_key()]@),
        state.models@.contains_key(addr.spec_key()) && family_of(state.models@[addr.spec_key()]@)
            == Some(ModelFamily::Plug) ==> (r matches Err(AppError::Tp(TpError::Unsupported(m)))
            && m@ == "dimmable"@),
{
    let model = match state.get_model(addr) {
        Ok(m) => m,
        Err(e) => return Err(e),
    };
    let device = match Device::try_new(addr, model.as_str()) {
        Ok(d) => d,
        Err(e) => return Err(AppError::Tp(e)),
    };
    let mut dimmer = match device.try_into_dimmable() {
        Ok(d) => d,
        Err(e) => return Err(AppError::Tp(e)),
    };
    match dimmer.set_brightness(link, brightness) {
        Ok(()) => Ok(()),
        Err(e) => Err(AppError::Tp(e)),
    }
}

/// Toggles the device at `addr` and returns its new state. Fails without
/// sending anything when the directory has no model for the address or the
/// model is unknown.
pub fn toggle<T: Transport>(state: &AppState, link: &mut Link<T>, addr: DeviceAddress) -> (r: Result<
    bool,
    AppError,
>)
    ensures
        (!state.models@.contains_key(addr.spec_key()) || family_of(
            state.models@[addr.spec_key()]@,
        ) is None) ==> final(link).log() == old(link).log(),
        state.models@.contains_key(addr.spec_key()) && family_of(state.models@[addr.spec_key()]@)
            is Some ==> exists|p1: ControlParams, rt: Result<bool, TpError>|
            #[trigger] toggled(
                old(link).log(),
                final(link).log(),
                addr,
                ControlParams::spec_initial(),
                p1,
                rt,
            ) && (rt matches Ok(b) ==> r == Ok::<bool, AppError>(b)) && (rt matches Err(e) ==> r
                == Err::<bool, AppError>(AppError::Tp(e))),
        !state.models@.contains_key(addr.spec_key()) ==> (r matches Err(AppError::NotFound(t))
            && t@ == address_text(addr)),
        state.models@.contains_key(addr.spec_key()) && family_of(
            state.models@[addr.spec_key()]@,
        ) is None ==> (r matches Err(AppError::Tp(TpError::UnknownModel(m))) && m@
            == state.models@[addr.spec_key()]@),
{
    let model = match state.get_model(addr) {
        Ok(m) => m,
        Err(e) => return Err(e),
    };
    let mut device = match Device::try_new(addr, model.as_str()) {
        Ok(d) => d,
        Err(e) => return Err(AppError::Tp(e)),
    };
    let rt = device.toggle(link);
    let ghost p1 = device.params_view();
    match rt {
        Ok(b) => Ok(b),
        Err(e) => Err(AppError::Tp(e)),
    }
}

} // verus!
