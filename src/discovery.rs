//! Discovery: the broadcast query, the replies of one cycle with one entry
//! per address, and the addresses a session has already listed.
use crate::capabilities::{observed, CommonCapabilities, ControlParams};
use crate::devices::{family_of, Device, DeviceAddress, ModelFamily};
use crate::models::{sysinfo_matches, sysinfo_readable, DeviceResponse};
use crate::protocol::{decipher, decrypt, encipher, encipher_bytes, lossy_text};
use crate::requests::{request_text, Request};
use vstd::prelude::*;
use vstd::utf8::encode_utf8;

verus! {

/// The port that devices listen on.
pub const DEVICE_PORT: u16 = 9999;

/// How long a cycle listens for replies unless told otherwise, in
/// milliseconds.
pub const DEFAULT_LISTEN_TIMEOUT_MS: u64 = 1000;

/// How long a periodic run waits between cycles unless told otherwise, in
/// seconds.
pub const DEFAULT_POLL_SECS: u64 = 5;

/// Where a discovery cycle listens from: the local IPv4 address to bind, and
/// how long to wait for the next reply before the cycle ends.
#[derive(Clone, Copy, Debug, PartialEq, Eq, Structural)]
pub struct DiscoverConfig {
    pub bind_ip: u32,
    pub listen_timeout_ms: u64,
}

impl DiscoverConfig {
    pub fn new(bind_ip: u32) -> (r: DiscoverConfig)
        ensures
            r.bind_ip == bind_ip,
            r.listen_timeout_ms == DEFAULT_LISTEN_TIMEOUT_MS,
    {
        DiscoverConfig { bind_ip, listen_timeout_ms: DEFAULT_LISTEN_TIMEOUT_MS }
    }
}

/// Where discovery queries go: the local subnet's broadcast address.
pub fn broadcast_target() -> (r: DeviceAddress)
    ensures
        r.ip == 0xC0A801FF,
        r.port == DEVICE_PORT,
{
    DeviceAddress::new(192, 168, 1, 255, DEVICE_PORT)
}

/// The datagram that asks every device for its system information: the
/// query's stream, without the length header (a datagram carries its own
/// length).
pub fn discovery_request() -> (r: Vec<u8>)
    ensures
        r@ == encipher(encode_utf8(request_text(Request::GetSysinfo))),
{
    let q = Request::GetSysinfo.to_string();
    encipher_bytes(q.as_str().as_bytes())
}

/// What a periodic discovery run hands its listener after each cycle.
#[derive(Debug)]
pub enum DiscoveryEvent {
    /// The devices first seen in the cycle.
    DevicesFound(Vec<Device>),
}

/// Whether some entry is at `a`.
pub open spec fn lists(entries: Seq<(DeviceAddress, DeviceResponse)>, a: DeviceAddress) -> bool {
    exists|i: int| 0 <= i < entries.len() && #[trigger] entries[i].0 == a
}

/// No two entries share an address.
pub open spec fn unique_addresses(entries: Seq<(DeviceAddress, DeviceResponse)>) -> bool {
    forall|i: int, j: int|
        0 <= i < j < entries.len() ==> #[trigger] entries[i].0 != #[trigger] entries[j].0
}

/// One reply's effect on a cycle's entries: a reply from an address already
/// listed changes nothing; one whose text reads as a record adds an entry
/// at the end; any other is dropped.
pub open spec fn cycle_step(
    before: Seq<(DeviceAddress, DeviceResponse)>,
    from: DeviceAddress,
    doc: Seq<char>,
    after: Seq<(DeviceAddress, DeviceResponse)>,
) -> bool {
    if lists(before, from) || !sysinfo_readable(doc) {
        after == before
    } else {
        &&& after.len() == before.len() + 1
        &&& after.drop_last() == before
        &&& after.last().0 == from
        &&& sysinfo_matches(doc, after.last().1.system.sysinfo)
    }
}

/// The replies of one discovery cycle, one entry per address, the first
/// reply from each address winning.
pub struct DiscoveryCycle {
    found: Vec<(DeviceAddress, DeviceResponse)>,
}

impl View for DiscoveryCycle {
    type V = Seq<(DeviceAddress, DeviceResponse)>;

    closed spec fn view(&self) -> Seq<(DeviceAddress, DeviceResponse)> {
        self.found@
    }
}

impl DiscoveryCycle {
    pub open spec fn wf(&self) -> bool {
        unique_addresses(self@)
    }

    pub fn new() -> (r: DiscoveryCycle)
        ensures
            r@ == Seq::<(DeviceAddress, DeviceResponse)>::empty(),
            r.wf(),
    {
        DiscoveryCycle { found: Vec::new() }
    }

    pub fn len(&self) -> (r: usize)
        ensures
            r == self@.len(),
    {
        self.found.len()
    }

    /// Whether a reply from `a` has been taken.
    pub fn contains(&self, a: &DeviceAddress) -> (r: bool)
        ensures
            r == lists(self@, *a),
    {
        let mut i: usize = 0;
        while i < self.found.len()
            invariant
                i <= self.found@.len(),
                forall|j: int| 0 <= j < i ==> self.found@[j].0 != *a,
            decreases self.found@.len() - i,
        {
            if self.found[i].0 == *a {
                assert(self.found@[i as int].0 == *a);
                return true;
            }
            i = i + 1;
        }
        false
    }

    /// Takes one datagram from `from`. Returns whether it added an entry.
    /// A reply from an address already listed is skipped before it is
    /// decoded; one that does not decode is dropped.
    pub fn on_datagram(&mut self, from: DeviceAddress, data: &mut [u8]) -> (added: bool)
        requires
            old(self).wf(),
        ensures
            final(self).wf(),
            cycle_step(old(self)@, from, lossy_text(decipher(old(data)@)), final(self)@),
            added <==> final(self)@.len() == old(self)@.len() + 1,
    {
        if self.contains(&from) {
            return false;
        }
        let text = decrypt(data);
        match DeviceResponse::parse(text.as_str()) {
            Ok(resp) => {
                self.found.push((from, resp));
                assert(self.found@.drop_last() =~= old(self)@);
                assert forall|i: int, j: int|
                    0 <= i < j < self.found@.len() implies #[trigger] self.found@[i].0
                    != #[trigger] self.found@[j].0 by {
                    if j == self.found@.len() - 1 {
                        assert(old(self)@[i].0 != from);
                    } else {
                        assert(old(self)@[i] == self.found@[i]);
                        assert(old(self)@[j] == self.found@[j]);
                    }
                }
                true
            },
            Err(_) => false,
        }
    }

    /// The entries, in the order their first replies came.
    pub fn into_devices(self) -> (r: Vec<(DeviceAddress, DeviceResponse)>)
        ensures
            r@ == self@,
    {
        self.found
    }
}

/// Two replies from one address within a cycle leave exactly one entry for
/// it, and the first of them wins: once the first is taken, the second
/// changes nothing.
pub proof fn lemma_first_reply_wins(
    s0: Seq<(DeviceAddress, DeviceResponse)>,
    s1: Seq<(DeviceAddress, DeviceResponse)>,
    s2: Seq<(DeviceAddress, DeviceResponse)>,
    from: DeviceAddress,
    first: Seq<char>,
    second: Seq<char>,
)
    requires
        unique_addresses(s0),
        !lists(s0, from),
        cycle_step(s0, from, first, s1),
        cycle_step(s1, from, second, s2),
    ensures
        sysinfo_readable(first) ==> s2 == s1 && lists(s2, from) && unique_addresses(s2)
            && s2.len() == s0.len() + 1,
        (sysinfo_readable(first) || sysinfo_readable(second)) ==> lists(s2, from) && unique_addresses(
            s2,
        ),
{
    if sysinfo_readable(first) {
        assert(s1[s1.len() - 1].0 == from);
        assert(lists(s1, from));
        assert forall|i: int, j: int| 0 <= i < j < s1.len() implies #[trigger] s1[i].0
            != #[trigger] s1[j].0 by {
            if j == s1.len() - 1 {
                assert(s0[i] == s1[i]);
                if s0[i].0 == from {
                    assert(lists(s0, from));
                }
            } else {
                assert(s0[i] == s1[i]);
                assert(s0[j] == s1[j]);
            }
        }
    } else if sysinfo_readable(second) {
        assert(s1 == s0);
        assert(s2[s2.len() - 1].0 == from);
        assert(lists(s2, from));
        assert forall|i: int, j: int| 0 <= i < j < s2.len() implies #[trigger] s2[i].0
            != #[trigger] s2[j].0 by {
            if j == s2.len() - 1 {
                assert(s1[i] == s2[i]);
                if s1[i].0 == from {
                    assert(lists(s1, from));
                }
            } else {
                assert(s1[i] == s2[i]);
                assert(s1[j] == s2[j]);
            }
        }
    }
}

/// The addresses a session has listed after the first `i` entries of a
/// cycle, starting from `seen`.
pub open spec fn seen_after(
    seen: Seq<DeviceAddress>,
    found: Seq<(DeviceAddress, DeviceResponse)>,
    i: nat,
) -> Seq<DeviceAddress>
    decreases i,
{
    if i == 0 {
        seen
    } else {
        let s = seen_after(seen, found, (i - 1) as nat);
        if s.contains(found[i - 1].0) {
            s
        } else {
            s.push(found[i - 1].0)
        }
    }
}

/// The new devices among the first `i` entries: those at an address not yet
/// listed whose model resolves, each with its address, family, and the
/// cached state that its record gives.
pub open spec fn admitted_after(
    seen: Seq<DeviceAddress>,
    found: Seq<(DeviceAddress, DeviceResponse)>,
    i: nat,
) -> Seq<(DeviceAddress, ModelFamily, ControlParams)>
    decreases i,
{
    if i == 0 {
        Seq::empty()
    } else {
        let prev = admitted_after(seen, found, (i - 1) as nat);
        let a = found[i - 1].0;
        if seen_after(seen, found, (i - 1) as nat).contains(a) {
            prev
        } else {
            match family_of(found[i - 1].1.system.sysinfo.model@) {
                Some(f) => prev.push((a, f, observed(&found[i - 1].1.system.sysinfo))),
                None => prev,
            }
        }
    }
}

/// The addresses that a discovery session has listed. An address is listed
/// once per session: a device that leaves and comes back at the same address
/// is not listed again, and entries never expire. A new session starts over.
pub struct DiscoverySession {
    seen: Vec<DeviceAddress>,
}

impl View for DiscoverySession {
    type V = Seq<DeviceAddress>;

    closed spec fn view(&self) -> Seq<DeviceAddress> {
        self.seen@
    }
}

impl DiscoverySession {
    pub fn new() -> (r: DiscoverySession)
        ensures
            r@ == Seq::<DeviceAddress>::empty(),
    {
        DiscoverySession { seen: Vec::new() }
    }

    /// Whether the session has listed `a`.
    pub fn has_seen(&self, a: &DeviceAddress) -> (r: bool)
        ensures
            r == self@.contains(*a),
    {
        let mut i: usize = 0;
        while i < self.seen.len()
            invariant
                i <= self.seen@.len(),
                forall|j: int| 0 <= j < i ==> self.seen@[j] != *a,
            decreases self.seen@.len() - i,
        {
            if self.seen[i] == *a {
                assert(self.seen@[i as int] == *a);
                return true;
            }
            i = i + 1;
        }
        false
    }

    /// Takes the entries of one cycle and returns a device for each address
    /// not listed before whose model resolves, its cache set from the record.
    /// Every address of the cycle is listed afterwards, resolved or not.
    pub fn take_cycle(&mut self, found: Vec<(DeviceAddress, DeviceResponse)>) -> (r: Vec<Device>)
        ensures
            final(self)@ == seen_after(old(self)@, found@, found@.len()),
            r@.len() == admitted_after(old(self)@, found@, found@.len()).len(),
            forall|k: int|
                0 <= k < r@.len() ==> (#[trigger] r@[k]).address_view() == admitted_after(
                    old(self)@,
                    found@,
                    found@.len(),
                )[k].0 && r@[k].family() == admitted_after(old(self)@, found@, found@.len())[k].1
                    && r@[k].params_view() == admitted_after(old(self)@, found@, found@.len())[k].2,
    {
        let ghost seen0 = self.seen@;
        let ghost all = found@;
        let mut out: Vec<Device> = Vec::new();
        let mut rest = found;
        let mut i: usize = 0;
        let n = rest.len();
        while rest.len() > 0
            invariant
                n == all.len(),
                i + rest@.len() == n,
                rest@ == all.subrange(i as int, n as int),
                self.seen@ == seen_after(seen0, all, i as nat),
                out@.len() == admitted_after(seen0, all, i as nat).len(),
                forall|k: int|
                    0 <= k < out@.len() ==> (#[trigger] out@[k]).address_view() == admitted_after(
                        seen0,
                        all,
                        i as nat,
                    )[k].0 && out@[k].family() == admitted_after(seen0, all, i as nat)[k].1
                        && out@[k].params_view() == admitted_after(seen0, all, i as nat)[k].2,
            decreases rest@.len(),
        {
            let (addr, resp) = rest.remove(0);
            assert(all[i as int] == (addr, resp));
            assert(rest@ =~= all.subrange(i as int + 1, n as int));
            let ghost out0 = out@;
            proof {
                assert(seen_after(seen0, all, (i + 1) as nat) == if seen_after(
                    seen0,
                    all,
                    i as nat,
                ).contains(addr) {
                    seen_after(seen0, all, i as nat)
                } else {
                    seen_after(seen0, all, i as nat).push(addr)
                });
            }
            let fresh = !self.has_seen(&addr);
            if fresh {
                self.seen.push(addr);
                let sysinfo = resp.system.sysinfo;
                match Device::try_new(addr, sysinfo.model.as_str()) {
                    Ok(mut d) => {
                        let p = ControlParams { brightness: sysinfo.brightness(), is_on: sysinfo.is_on() };
                        d.set_cache(p);
                        out.push(d);
                        assert(out@.drop_last() == out0);
                    },
                    Err(_) => {},
                }
            }
            i = i + 1;
        }
        out
    }
}

} // verus!
