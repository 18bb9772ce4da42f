//! What devices can do: switching for all of them, dimming for some. Every
//! operation is written once, over a transport that carries one request to a
//! device and brings back its reply, and over the device's cached state. The
//! transport is held in a `Link`, whose record of exchanges lets each
//! operation state what it sent and what it made of the reply.
use crate::devices::DeviceAddress;
use crate::error::TpError;
use crate::json::json_text_at;
use crate::models::{
    effective_brightness, lemma_reported_on, on_state, reported_on, sysinfo_from_reply,
    sysinfo_outcome, sysinfo_readable, SysInfo,
};
use crate::protocol::{check_reply, checked, reply_accepted, reply_view, section_error_matches};
use crate::requests::{alias_request_text, clamp_brightness, request_section, request_text, Request};
use vstd::prelude::*;

verus! {

/// Carries one request to a device and brings back the text of its reply.
pub trait Transport {
    fn send(&mut self, addr: &DeviceAddress, msg: &str) -> Result<String, TpError>;
}

/// One exchange with a device: where the request went, its text, and the
/// reply that came back (or the error in its place).
pub type Exchange = (DeviceAddress, Seq<char>, Result<Seq<char>, TpError>);

/// A transport together with the record of every exchange made through it.
/// Operations take a link, so that their contracts can say what they sent and
/// what they made of the reply.
pub struct Link<T: Transport> {
    transport: T,
    log: Ghost<Seq<Exchange>>,
}

impl<T: Transport> Link<T> {
    /// The exchanges made so far, oldest first.
    pub closed spec fn log(&self) -> Seq<Exchange> {
        self.log@
    }

    pub fn new(transport: T) -> (r: Link<T>)
        ensures
            r.log() == Seq::<Exchange>::empty(),
    {
        Link { transport, log: Ghost(Seq::empty()) }
    }

    pub fn transport(&self) -> &T {
        &self.transport
    }

    pub fn into_transport(self) -> T {
        self.transport
    }

    /// Sends one request and records the exchange.
    pub fn send(&mut self, addr: &DeviceAddress, msg: &str) -> (r: Result<String, TpError>)
        ensures
            final(self).log() == old(self).log().push((*addr, msg@, reply_view(r))),
    {
        let r = self.transport.send(addr, msg);
        self.log = Ghost(self.log@.push((*addr, msg@, reply_view(r))));
        r
    }
}

/// `after` is `before` with one more exchange: request text `msg` to `addr`.
pub open spec fn sent_one(
    before: Seq<Exchange>,
    after: Seq<Exchange>,
    addr: DeviceAddress,
    msg: Seq<char>,
) -> bool {
    &&& after.len() == before.len() + 1
    &&& after.drop_last() == before
    &&& after.last().0 == addr
    &&& after.last().1 == msg
}

/// What toggling decides for a device read as `is_on`: the relay command to
/// send and the state that results.
pub open spec fn toggle_plan(is_on: bool) -> (Request, bool) {
    (Request::SetRelayState(!is_on), !is_on)
}

pub fn toggle_step(is_on: bool) -> (r: (Request, bool))
    ensures
        r == toggle_plan(is_on),
{
    (Request::SetRelayState(!is_on), !is_on)
}

/// What a toggle does, from the exchanges `before` to `after`, the cache `p0`
/// to `p1`, and its result `r`: it queries the record; a failed query, or
/// one whose reply does not read, ends there with the error and the cache
/// kept. Otherwise it sends the relay command for the opposite of the state
/// read; when the device accepts it, the result and the cache are that
/// opposite state, and otherwise the cache holds the state read and the
/// error is passed on.
pub open spec fn toggled(
    before: Seq<Exchange>,
    after: Seq<Exchange>,
    addr: DeviceAddress,
    p0: ControlParams,
    p1: ControlParams,
    r: Result<bool, TpError>,
) -> bool {
    let k = before.len() as int;
    &&& after.len() > before.len()
    &&& after.take(k) == before
    &&& after[k].0 == addr
    &&& after[k].1 == request_text(Request::GetSysinfo)
    &&& match after[k].2 {
        Err(e0) => after.len() == k + 1 && p1 == p0 && r == Err::<bool, TpError>(e0),
        Ok(doc) => if !sysinfo_readable(doc) {
            &&& after.len() == k + 1
            &&& p1 == p0
            &&& r matches Err(e) && e is Serde
        } else {
            let on = reported_on(doc);
            let relay = Request::SetRelayState(!on);
            &&& after.len() == k + 2
            &&& after[k + 1].0 == addr
            &&& after[k + 1].1 == request_text(relay)
            &&& (r matches Ok(b) ==> b == !on && p1.is_on == !on)
            &&& (r is Err ==> p1.is_on == on)
            &&& match after[k + 1].2 {
                Err(e0) => r == Err::<bool, TpError>(e0),
                Ok(d2) => {
                    &&& (r is Ok <==> reply_accepted(d2, request_section(relay)))
                    &&& (r matches Err(e) ==> (e matches TpError::TPLink(se)
                        && section_error_matches(d2, request_section(relay), se)))
                },
            }
        },
    }
}


/// What setting the brightness to `b` does: it sends the brightness command
/// for `b` (clamped) to `addr`, succeeds exactly when the reply accepts it,
/// and then caches the clamped value; on failure the cache is kept.
pub open spec fn brightness_set(
    before: Seq<Exchange>,
    after: Seq<Exchange>,
    addr: DeviceAddress,
    p0: ControlParams,
    p1: ControlParams,
    b: u8,
    r: Result<(), TpError>,
) -> bool {
    &&& sent_one(before, after, addr, request_text(Request::SetBrightness(b)))
    &&& checked(after.last().2, "/smartlife.iot.dimmer/set_brightness"@, r)
    &&& (r is Ok ==> p1 == ControlParams { brightness: clamp_brightness(b), ..p0 })
    &&& (r is Err ==> p1 == p0)
}

/// Asking for brightness `b` behaves as asking for its clamp (0 as 1, 150
/// as 100): from the same exchanges and cache, and with the same reply, the
/// two calls send the same request, succeed or fail alike, and leave the
/// same cache.
pub proof fn lemma_set_brightness_clamped(
    b: u8,
    before: Seq<Exchange>,
    addr: DeviceAddress,
    p0: ControlParams,
    after_a: Seq<Exchange>,
    p_a: ControlParams,
    r_a: Result<(), TpError>,
    after_b: Seq<Exchange>,
    p_b: ControlParams,
    r_b: Result<(), TpError>,
)
    requires
        brightness_set(before, after_a, addr, p0, p_a, b, r_a),
        brightness_set(before, after_b, addr, p0, p_b, clamp_brightness(b), r_b),
        after_a.last().2 == after_b.last().2,
    ensures
        after_a == after_b,
        r_a is Ok <==> r_b is Ok,
        p_a == p_b,
{
    assert(clamp_brightness(clamp_brightness(b)) == clamp_brightness(b));
    assert(request_text(Request::SetBrightness(b)) == request_text(
        Request::SetBrightness(clamp_brightness(b)),
    ));
    assert forall|i: int| 0 <= i < after_a.len() implies after_a[i] == after_b[i] by {
        if i < before.len() {
            assert(after_a[i] == after_a.drop_last()[i]);
            assert(after_b[i] == after_b.drop_last()[i]);
        }
    }
    assert(after_a =~= after_b);
}

/// The state of a device as last confirmed: set from the requested value
/// after the device accepts a command, never read back on its own.
#[derive(Clone, Copy, Debug, PartialEq, Eq, Structural)]
pub struct ControlParams {
    pub brightness: u8,
    pub is_on: bool,
}

impl ControlParams {
    pub open spec fn spec_initial() -> ControlParams {
        ControlParams { brightness: 0, is_on: false }
    }

    /// The state before anything is known: off, at brightness 0.
    pub fn initial() -> (r: ControlParams)
        ensures
            r == ControlParams::spec_initial(),
    {
        ControlParams { brightness: 0, is_on: false }
    }
}

/// The cached state that a system-information record gives.
pub open spec fn observed(s: &SysInfo) -> ControlParams {
    ControlParams { brightness: effective_brightness(s), is_on: on_state(s) }
}

/// The operations that every device supports.
pub trait CommonCapabilities {
    spec fn address_view(&self) -> DeviceAddress;

    spec fn params_view(&self) -> ControlParams;

    fn address(&self) -> (r: DeviceAddress)
        ensures
            r == self.address_view(),
    ;

    fn params(&self) -> (r: ControlParams)
        ensures
            r == self.params_view(),
    ;

    fn set_params(&mut self, p: ControlParams)
        ensures
            final(self).params_view() == p,
            final(self).address_view() == old(self).address_view(),
    ;

    /// Sends a request to the device and returns its reply text.
    fn exchange<T: Transport>(&self, link: &mut Link<T>, req: &Request) -> (r: Result<
        String,
        TpError,
    >)
        ensures
            final(link).log() == old(link).log().push(
                (self.address_view(), request_text(*req), reply_view(r)),
            ),
    {
        let addr = self.address();
        let msg = req.to_string();
        link.send(&addr, msg.as_str())
    }

    /// Sends a command and checks the error code of its section in the reply.
    fn command<T: Transport>(&self, link: &mut Link<T>, req: &Request) -> (r: Result<(), TpError>)
        ensures
            sent_one(old(link).log(), final(link).log(), self.address_view(), request_text(*req)),
            checked(final(link).log().last().2, request_section(*req), r),
    {
        let reply = self.exchange(link, req);
        assert(link.log().drop_last() =~= old(link).log());
        check_reply(reply, req.section())
    }

    /// Queries the system information, and on success caches the on state and
    /// brightness that it gives.
    fn get_sysinfo<T: Transport>(&mut self, link: &mut Link<T>) -> (r: Result<SysInfo, TpError>)
        ensures
            final(self).address_view() == old(self).address_view(),
            sent_one(
                old(link).log(),
                final(link).log(),
                old(self).address_view(),
                request_text(Request::GetSysinfo),
            ),
            sysinfo_outcome(final(link).log().last().2, r),
            r matches Ok(s) ==> final(self).params_view() == observed(&s),
            r is Err ==> final(self).params_view() == old(self).params_view(),
    {
        let reply = self.exchange(link, &Request::GetSysinfo);
        assert(link.log().drop_last() =~= old(link).log());
        match sysinfo_from_reply(reply) {
            Ok(s) => {
                let p = ControlParams { brightness: s.brightness(), is_on: s.is_on() };
                self.set_params(p);
                Ok(s)
            },
            Err(e) => Err(e),
        }
    }

    fn get_alias<T: Transport>(&mut self, link: &mut Link<T>) -> (r: Result<String, TpError>)
        ensures
            final(self).address_view() == old(self).address_view(),
            sent_one(
                old(link).log(),
                final(link).log(),
                old(self).address_view(),
                request_text(Request::GetSysinfo),
            ),
            match final(link).log().last().2 {
                Err(e0) => r == Err::<String, TpError>(e0),
                Ok(doc) => {
                    &&& (r is Ok <==> sysinfo_readable(doc))
                    &&& (r matches Ok(a) ==> json_text_at(doc, "/system/get_sysinfo/alias"@)
                        == Some(a@))
                },
            },
            r is Err ==> final(self).params_view() == old(self).params_view(),
    {
        match self.get_sysinfo(link) {
            Ok(s) => Ok(s.alias),
            Err(e) => Err(e),
        }
    }

    /// Renames the device.
    fn set_alias<T: Transport>(&self, link: &mut Link<T>, alias: &str) -> (r: Result<(), TpError>)
        ensures
            sent_one(old(link).log(), final(link).log(), self.address_view(), alias_request_text(alias@)),
            checked(final(link).log().last().2, "/system/set_dev_alias"@, r),
    {
        self.command(link, &Request::SetAlias(String::from_str(alias)))
    }

    /// Reboots the device in one second.
    fn reboot<T: Transport>(&self, link: &mut Link<T>) -> (r: Result<(), TpError>)
        ensures
            sent_one(
                old(link).log(),
                final(link).log(),
                self.address_view(),
                request_text(Request::RebootWithDelay(1)),
            ),
            checked(final(link).log().last().2, "/system/reboot"@, r),
    {
        self.reboot_with_delay(link, 1)
    }

    /// Reboots the device after `secs` seconds.
    fn reboot_with_delay<T: Transport>(&self, link: &mut Link<T>, secs: u64) -> (r: Result<
        (),
        TpError,
    >)
        ensures
            sent_one(
                old(link).log(),
                final(link).log(),
                self.address_view(),
                request_text(Request::RebootWithDelay(secs)),
            ),
            checked(final(link).log().last().2, "/system/reboot"@, r),
    {
        self.command(link, &Request::RebootWithDelay(secs))
    }

    /// Reads whether the device is on, and caches what the record gives.
    fn get_is_on<T: Transport>(&mut self, link: &mut Link<T>) -> (r: Result<bool, TpError>)
        ensures
            final(self).address_view() == old(self).address_view(),
            sent_one(
                old(link).log(),
                final(link).log(),
                old(self).address_view(),
                request_text(Request::GetSysinfo),
            ),
            match final(link).log().last().2 {
                Err(e0) => r == Err::<bool, TpError>(e0),
                Ok(doc) => {
                    &&& (r is Ok <==> sysinfo_readable(doc))
                    &&& (r matches Ok(b) ==> b == reported_on(doc))
                    &&& (r matches Err(e) ==> e is Serde)
                },
            },
            r matches Ok(b) ==> final(self).params_view().is_on == b,
            r is Err ==> final(self).params_view() == old(self).params_view(),
    {
        match self.get_sysinfo(link) {
            Ok(s) => {
                proof {
                    match link.log().last().2 {
                        Ok(doc) => lemma_reported_on(doc, s),
                        Err(_) => {},
                    }
                }
                Ok(s.is_on())
            },
            Err(e) => Err(e),
        }
    }

    fn get_is_off<T: Transport>(&mut self, link: &mut Link<T>) -> (r: Result<bool, TpError>)
        ensures
            final(self).address_view() == old(self).address_view(),
            sent_one(
                old(link).log(),
                final(link).log(),
                old(self).address_view(),
                request_text(Request::GetSysinfo),
            ),
            match final(link).log().last().2 {
                Err(e0) => r == Err::<bool, TpError>(e0),
                Ok(doc) => {
                    &&& (r is Ok <==> sysinfo_readable(doc))
                    &&& (r matches Ok(b) ==> b == !reported_on(doc))
                    &&& (r matches Err(e) ==> e is Serde)
                },
            },
            r matches Ok(b) ==> final(self).params_view().is_on == !b,
            r is Err ==> final(self).params_view() == old(self).params_view(),
    {
        match self.get_is_on(link) {
            Ok(b) => Ok(!b),
            Err(e) => Err(e),
        }
    }

    /// Switches the device on; once it confirms, the cache says on.
    fn switch_on<T: Transport>(&mut self, link: &mut Link<T>) -> (r: Result<(), TpError>)
        ensures
            final(self).address_view() == old(self).address_view(),
            sent_one(
                old(link).log(),
                final(link).log(),
                old(self).address_view(),
                request_text(Request::SetRelayState(true)),
            ),
            checked(final(link).log().last().2, "/system/set_relay_state"@, r),
            r is Ok ==> final(self).params_view() == (ControlParams {
                is_on: true,
                ..old(self).params_view()
            }),
            r is Err ==> final(self).params_view() == old(self).params_view(),
    {
        let r = self.command(link, &Request::SetRelayState(true));
        if r.is_ok() {
            let old_p = self.params();
            self.set_params(ControlParams { is_on: true, ..old_p });
        }
        r
    }

    /// Switches the device off; once it confirms, the cache says off.
    fn switch_off<T: Transport>(&mut self, link: &mut Link<T>) -> (r: Result<(), TpError>)
        ensures
            final(self).address_view() == old(self).address_view(),
            sent_one(
                old(link).log(),
                final(link).log(),
                old(self).address_view(),
                request_text(Request::SetRelayState(false)),
            ),
            checked(final(link).log().last().2, "/system/set_relay_state"@, r),
            r is Ok ==> final(self).params_view() == (ControlParams {
                is_on: false,
                ..old(self).params_view()
            }),
            r is Err ==> final(self).params_view() == old(self).params_view(),
    {
        let r = self.command(link, &Request::SetRelayState(false));
        if r.is_ok() {
            let old_p = self.params();
            self.set_params(ControlParams { is_on: false, ..old_p });
        }
        r
    }

    /// Reads whether the device is on, switches it the other way, and returns
    /// the new state. The read and the switch are two exchanges: a change made
    /// elsewhere between them is not seen.
    fn toggle<T: Transport>(&mut self, link: &mut Link<T>) -> (r: Result<bool, TpError>)
        ensures
            final(self).address_view() == old(self).address_view(),
            toggled(
                old(link).log(),
                final(link).log(),
                old(self).address_view(),
                old(self).params_view(),
                final(self).params_view(),
                r,
            ),
    {
        let ghost l0 = link.log();
        let on = match self.get_is_on(link) {
            Ok(b) => b,
            Err(e) => {
                proof {
                    assert(link.log().take(l0.len() as int) =~= l0);
                }
                return Err(e);
            },
        };
        let ghost l1 = link.log();
        let (req, next) = toggle_step(on);
        let r = self.command(link, &req);
        proof {
            assert(l1.take(l0.len() as int) =~= l0);
            assert(link.log().take(l0.len() as int) =~= l0);
            assert(link.log()[l0.len() as int] == l1[l0.len() as int]);
        }
        match r {
            Ok(()) => {
                let p = self.params();
                self.set_params(ControlParams { is_on: next, ..p });
                Ok(next)
            },
            Err(e) => Err(e),
        }
    }
}

/// The operations of devices that dim.
pub trait Dimmable: CommonCapabilities {
    fn get_dimmer_parameters<T: Transport>(&self, link: &mut Link<T>) -> (r: Result<(), TpError>)
        ensures
            sent_one(
                old(link).log(),
                final(link).log(),
                self.address_view(),
                request_text(Request::GetDimmerParameters),
            ),
            checked(
                final(link).log().last().2,
                "/smartlife.iot.dimmer/get_dimmer_parameters"@,
                r,
            ),
    {
        self.command(link, &Request::GetDimmerParameters)
    }

    fn get_default_behavior<T: Transport>(&self, link: &mut Link<T>) -> (r: Result<(), TpError>)
        ensures
            sent_one(
                old(link).log(),
                final(link).log(),
                self.address_view(),
                request_text(Request::GetDefaultBehavior),
            ),
            checked(final(link).log().last().2, "/smartlife.iot.dimmer/get_default_behavior"@, r),
    {
        self.command(link, &Request::GetDefaultBehavior)
    }

    /// Fades to `brightness`, clamped to 1..=100, with the gentle on/off
    /// easing over one second; once the device confirms, the cache holds the
    /// clamped value.
    fn set_transition<T: Transport>(&mut self, link: &mut Link<T>, brightness: u8) -> (r: Result<
        (),
        TpError,
    >)
        ensures
            final(self).address_view() == old(self).address_view(),
            sent_one(
                old(link).log(),
                final(link).log(),
                old(self).address_view(),
                request_text(Request::SetTransition(brightness)),
            ),
            checked(
                final(link).log().last().2,
                "/smartlife.iot.dimmer/set_dimmer_transition"@,
                r,
            ),
            r is Ok ==> final(self).params_view() == (ControlParams {
                brightness: clamp_brightness(brightness),
                ..old(self).params_view()
            }),
            r is Err ==> final(self).params_view() == old(self).params_view(),
    {
        let req = Request::SetTransition(brightness);
        let r = self.command(link, &req);
        if r.is_ok() {
            let old_p = self.params();
            let b = crate::requests::clamp_brightness_value(brightness);
            self.set_params(ControlParams { brightness: b, ..old_p });
        }
        r
    }

    /// Sets the brightness, clamped to 1..=100 (the firmware refuses 0);
    /// once the device confirms, the cache holds the clamped value.
    fn set_brightness<T: Transport>(&mut self, link: &mut Link<T>, brightness: u8) -> (r: Result<
        (),
        TpError,
    >)
        ensures
            final(self).address_view() == old(self).address_view(),
            brightness_set(
                old(link).log(),
                final(link).log(),
                old(self).address_view(),
                old(self).params_view(),
                final(self).params_view(),
                brightness,
                r,
            ),
    {
        let req = Request::SetBrightness(brightness);
        let r = self.command(link, &req);
        if r.is_ok() {
            let old_p = self.params();
            let b = crate::requests::clamp_brightness_value(brightness);
            self.set_params(ControlParams { brightness: b, ..old_p });
        }
        r
    }
}

} // verus!
