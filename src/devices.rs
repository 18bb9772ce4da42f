//! The supported device families, and how a device is told apart by its
//! model string.
use crate::capabilities::{CommonCapabilities, ControlParams, Dimmable};
use crate::error::TpError;
use crate::requests::{decimal, decimal_text};
use vstd::prelude::*;
use vstd::string::StringExecFns;

verus! {

/// The IPv4 endpoint of a device.
#[derive(Clone, Copy, Debug, PartialEq, Eq, Structural)]
pub struct DeviceAddress {
    /// The address, most significant octet first.
    pub ip: u32,
    pub port: u16,
}

impl DeviceAddress {
    pub fn new(a: u8, b: u8, c: u8, d: u8, port: u16) -> (r: DeviceAddress)
        ensures
            r.ip == a as int * 0x1000000 + b as int * 0x10000 + c as int * 0x100 + d as int,
            r.port == port,
    {
        let ip = a as u32 * 0x1000000 + b as u32 * 0x10000 + c as u32 * 0x100 + d as u32;
        DeviceAddress { ip, port }
    }

    pub open spec fn spec_key(&self) -> u64 {
        (self.ip as u64 * 0x10000 + self.port as u64) as u64
    }

    /// A number that tells addresses apart: the address above the port.
    pub fn key(&self) -> (r: u64)
        ensures
            r == self.spec_key(),
            r as int == self.ip as int * 0x10000 + self.port as int,
    {
        self.ip as u64 * 0x10000 + self.port as u64
    }
}

/// The dotted-decimal text of an address and its port, as in
/// `192.168.1.5:9999`.
pub open spec fn address_text(a: DeviceAddress) -> Seq<char> {
    decimal_text((a.ip / 0x1000000) as nat) + "."@ + decimal_text(((a.ip / 0x10000) % 0x100) as nat)
        + "."@ + decimal_text(((a.ip / 0x100) % 0x100) as nat) + "."@ + decimal_text(
        (a.ip % 0x100) as nat,
    ) + ":"@ + decimal_text(a.port as nat)
}

impl DeviceAddress {
    pub fn to_text(&self) -> (r: String)
        ensures
            r@ == address_text(*self),
    {
        let mut s = decimal((self.ip / 0x1000000) as u64);
        s.append(".");
        s.append(decimal(((self.ip / 0x10000) % 0x100) as u64).as_str());
        s.append(".");
        s.append(decimal(((self.ip / 0x100) % 0x100) as u64).as_str());
        s.append(".");
        s.append(decimal((self.ip % 0x100) as u64).as_str());
        s.append(":");
        s.append(decimal(self.port as u64).as_str());
        s
    }
}

/// Two addresses with the same key are the same address.
pub proof fn lemma_key_injective(a: DeviceAddress, b: DeviceAddress)
    ensures
        a.spec_key() == b.spec_key() <==> a == b,
{
    assert(a.spec_key() as int == a.ip as int * 0x10000 + a.port as int);
    assert(b.spec_key() as int == b.ip as int * 0x10000 + b.port as int);
    if a.spec_key() == b.spec_key() {
        assert(a.port == b.port && a.ip == b.ip) by (nonlinear_arith)
            requires
                a.ip as int * 0x10000 + a.port as int == b.ip as int * 0x10000 + b.port as int,
                a.port < 0x10000,
                b.port < 0x10000,
        ;
    }
}

/// An EP10 smart plug: switching only.
#[derive(Clone, Debug)]
pub struct EP10 {
    pub addr: DeviceAddress,
    pub params: ControlParams,
}

/// An HS220 dimmer switch (also KP405 and ES20M): switching and dimming.
#[derive(Clone, Debug)]
pub struct HS220 {
    pub addr: DeviceAddress,
    pub params: ControlParams,
}

/// A KL135 colour bulb: switching and dimming.
#[derive(Clone, Debug)]
pub struct KL135 {
    pub addr: DeviceAddress,
    pub params: ControlParams,
}

impl EP10 {
    pub fn new(addr: DeviceAddress) -> (r: EP10)
        ensures
            r.addr == addr,
            r.params == ControlParams::spec_initial(),
    {
        EP10 { addr, params: ControlParams::initial() }
    }
}

impl HS220 {
    pub fn new(addr: DeviceAddress) -> (r: HS220)
        ensures
            r.addr == addr,
            r.params == ControlParams::spec_initial(),
    {
        HS220 { addr, params: ControlParams::initial() }
    }
}

impl KL135 {
    pub fn new(addr: DeviceAddress) -> (r: KL135)
        ensures
            r.addr == addr,
            r.params == ControlParams::spec_initial(),
    {
        KL135 { addr, params: ControlParams::initial() }
    }
}

impl CommonCapabilities for EP10 {
    open spec fn address_view(&self) -> DeviceAddress {
        self.addr
    }

    open spec fn params_view(&self) -> ControlParams {
        self.params
    }

    fn address(&self) -> (r: DeviceAddress) {
        assert(self.address_view() == self.addr);
        self.addr
    }

    fn params(&self) -> (r: ControlParams) {
        self.params
    }

    fn set_params(&mut self, p: ControlParams) {
        self.params = p;
    }
}

impl CommonCapabilities for HS220 {
    open spec fn address_view(&self) -> DeviceAddress {
        self.addr
    }

    open spec fn params_view(&self) -> ControlParams {
        self.params
    }

    fn address(&self) -> (r: DeviceAddress) {
        assert(self.address_view() == self.addr);
        self.addr
    }

    fn params(&self) -> (r: ControlParams) {
        self.params
    }

    fn set_params(&mut self, p: ControlParams) {
        self.params = p;
    }
}

impl CommonCapabilities for KL135 {
    open spec fn address_view(&self) -> DeviceAddress {
        self.addr
    }

    open spec fn params_view(&self) -> ControlParams {
        self.params
    }

    fn address(&self) -> (r: DeviceAddress) {
        assert(self.address_view() == self.addr);
        self.addr
    }

    fn params(&self) -> (r: ControlParams) {
        self.params
    }

    fn set_params(&mut self, p: ControlParams) {
        self.params = p;
    }
}

impl Dimmable for HS220 {}

impl Dimmable for KL135 {}

/// The family a model string belongs to.
#[derive(Clone, Copy, Debug, PartialEq, Eq, Structural)]
pub enum ModelFamily {
    Plug,
    Switch,
    Bulb,
}

/// A device of one of the supported families.
#[derive(Clone, Debug)]
pub enum Device {
    /// Smart plug
    EP10(EP10),
    /// Dimmable switch
    HS220(HS220),
    /// Smart bulb
    KL135(KL135),
}

/// A device that dims.
#[derive(Clone, Debug)]
pub enum Dimmer {
    HS220(HS220),
    KL135(KL135),
}

/// Whether `t` occurs in `s`.
pub open spec fn contains_text(s: Seq<char>, t: Seq<char>) -> bool {
    exists|i: int| 0 <= i && i + t.len() <= s.len() && #[trigger] s.subrange(i, i + t.len()) == t
}

/// Relies on `str::contains` with a `&str` pattern: whether the pattern
/// occurs in the text.
#[verifier::external_body]
fn has_text(s: &str, t: &str) -> (r: bool)
    ensures
        r == contains_text(s@, t@),
{
    s.contains(t)
}

/// The family of a model string, by the first family token found in the
/// order plug, switch, bulb.
pub open spec fn family_of(model: Seq<char>) -> Option<ModelFamily> {
    if contains_text(model, "EP10"@) {
        Some(ModelFamily::Plug)
    } else if contains_text(model, "HS220"@) || contains_text(model, "KP405"@) || contains_text(
        model,
        "ES20M"@,
    ) {
        Some(ModelFamily::Switch)
    } else if contains_text(model, "KL135"@) {
        Some(ModelFamily::Bulb)
    } else {
        None
    }
}

/// What resolving `model` at `addr` gives: a fresh device of the model's
/// family at that address, or an unknown-model error that carries the model.
pub open spec fn resolves_to(addr: DeviceAddress, model: Seq<char>, r: Result<Device, TpError>) -> bool {
    match family_of(model) {
        Some(f) => r matches Ok(d) && d.family() == f && d.address_view() == addr
            && d.params_view() == ControlParams::spec_initial(),
        None => r matches Err(TpError::UnknownModel(m)) && m@ == model,
    }
}

/// The outcome of resolving one model at one address is the same every time.
pub proof fn lemma_resolve_pure(
    addr: DeviceAddress,
    model: Seq<char>,
    r1: Result<Device, TpError>,
    r2: Result<Device, TpError>,
)
    requires
        resolves_to(addr, model, r1),
        resolves_to(addr, model, r2),
    ensures
        r1 is Ok <==> r2 is Ok,
        r1 matches Ok(d1) ==> (r2 matches Ok(d2) && d1.family() == d2.family()
            && d1.address_view() == d2.address_view() && d1.params_view() == d2.params_view()),
        r1 matches Err(TpError::UnknownModel(m1)) ==> (r2 matches Err(TpError::UnknownModel(m2))
            && m1@ == m2@),
{
}

impl Device {
    pub open spec fn family(&self) -> ModelFamily {
        match self {
            Device::EP10(_) => ModelFamily::Plug,
            Device::HS220(_) => ModelFamily::Switch,
            Device::KL135(_) => ModelFamily::Bulb,
        }
    }

    /// Makes the device that a model string names, at `addr`.
    pub fn try_new(addr: DeviceAddress, model: &str) -> (r: Result<Device, TpError>)
        ensures
            resolves_to(addr, model@, r),
    {
        if has_text(model, "EP10") {
            Ok(Device::EP10(EP10::new(addr)))
        } else if has_text(model, "HS220") || has_text(model, "KP405") || has_text(model, "ES20M") {
            Ok(Device::HS220(HS220::new(addr)))
        } else if has_text(model, "KL135") {
            Ok(Device::KL135(KL135::new(addr)))
        } else {
            Err(TpError::UnknownModel(String::from_str(model)))
        }
    }

    /// Replaces the cached state, keeping address and family.
    pub fn set_cache(&mut self, p: ControlParams)
        ensures
            final(self).params_view() == p,
            final(self).address_view() == old(self).address_view(),
            final(self).family() == old(self).family(),
    {
        match self {
            Device::EP10(d) => d.params = p,
            Device::HS220(d) => d.params = p,
            Device::KL135(d) => d.params = p,
        }
    }

    /// Narrows the device to one that dims, keeping its address and cache;
    /// a plug is refused as unsupported.
    pub fn try_into_dimmable(self) -> (r: Result<Dimmer, TpError>)
        ensures
            self.family() == ModelFamily::Plug <==> r is Err,
            r matches Err(e) ==> (e matches TpError::Unsupported(m) && m@ == "dimmable"@),
            r matches Ok(d) ==> d.address_view() == self.address_view() && d.params_view()
                == self.params_view() && (d is HS220 <==> self.family() == ModelFamily::Switch),
    {
        match self {
            Device::HS220(d) => Ok(Dimmer::HS220(d)),
            Device::KL135(d) => Ok(Dimmer::KL135(d)),
            Device::EP10(_) => Err(TpError::Unsupported(String::from_str("dimmable"))),
        }
    }
}

impl CommonCapabilities for Device {
    open spec fn address_view(&self) -> DeviceAddress {
        match self {
            Device::EP10(d) => d.addr,
            Device::HS220(d) => d.addr,
            Device::KL135(d) => d.addr,
        }
    }

    open spec fn params_view(&self) -> ControlParams {
        match self {
            Device::EP10(d) => d.params,
            Device::HS220(d) => d.params,
            Device::KL135(d) => d.params,
        }
    }

    fn address(&self) -> (r: DeviceAddress) {
        match self {
            Device::EP10(d) => {
                let a = d.addr;
                assert(self.address_view() == a);
                a
            },
            Device::HS220(d) => {
                let a = d.addr;
                assert(self.address_view() == a);
                a
            },
            Device::KL135(d) => {
                let a = d.addr;
                assert(self.address_view() == a);
                a
            },
        }
    }

    fn params(&self) -> (r: ControlParams) {
        match self {
            Device::EP10(d) => d.params,
            Device::HS220(d) => d.params,
            Device::KL135(d) => d.params,
        }
    }

    fn set_params(&mut self, p: ControlParams) {
        self.set_cache(p);
    }
}

impl CommonCapabilities for Dimmer {
    open spec fn address_view(&self) -> DeviceAddress {
        match self {
            Dimmer::HS220(d) => d.addr,
            Dimmer::KL135(d) => d.addr,
        }
    }

    open spec fn params_view(&self) -> ControlParams {
        match self {
            Dimmer::HS220(d) => d.params,
            Dimmer::KL135(d) => d.params,
        }
    }

    fn address(&self) -> (r: DeviceAddress) {
        match self {
            Dimmer::HS220(d) => {
                let a = d.addr;
                assert(self.address_view() == a);
                a
            },
            Dimmer::KL135(d) => {
                let a = d.addr;
                assert(self.address_view() == a);
                a
            },
        }
    }

    fn params(&self) -> (r: ControlParams) {
        match self {
            Dimmer::HS220(d) => d.params,
            Dimmer::KL135(d) => d.params,
        }
    }

    fn set_params(&mut self, p: ControlParams) {
        match self {
            Dimmer::HS220(d) => d.params = p,
            Dimmer::KL135(d) => d.params = p,
        }
    }
}

impl Dimmable for Dimmer {}

} // verus!
