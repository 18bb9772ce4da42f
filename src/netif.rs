//! Choosing the local address that discovery binds to, from the system's
//! list of network interfaces.
use vstd::prelude::*;
use vstd::string::StringExecFns;

verus! {

/// One address of an interface.
#[derive(Clone, Copy, Debug, PartialEq, Eq, Structural)]
pub struct IfAddr {
    /// The IPv4 address, most significant octet first; none for IPv6.
    pub ipv4: Option<u32>,
    /// Whether the address has a broadcast address.
    pub has_broadcast: bool,
}

/// A network interface and its addresses.
#[derive(Debug)]
pub struct NetInterface {
    pub name: String,
    pub addrs: Vec<IfAddr>,
}

/// The first IPv4 address with a broadcast address.
pub open spec fn broadcast_ipv4(addrs: Seq<IfAddr>) -> Option<u32>
    decreases addrs.len(),
{
    if addrs.len() == 0 {
        None
    } else if addrs[0].has_broadcast && addrs[0].ipv4 is Some {
        addrs[0].ipv4
    } else {
        broadcast_ipv4(addrs.drop_first())
    }
}

/// The broadcast-capable IPv4 address of the first interface named `name`.
pub open spec fn local_ip_of(ifs: Seq<NetInterface>, name: Seq<char>) -> Option<u32>
    decreases ifs.len(),
{
    if ifs.len() == 0 {
        None
    } else if ifs[0].name@ == name {
        broadcast_ipv4(ifs[0].addrs@)
    } else {
        local_ip_of(ifs.drop_first(), name)
    }
}

fn first_broadcast_ipv4(addrs: &Vec<IfAddr>) -> (r: Option<u32>)
    ensures
        r == broadcast_ipv4(addrs@),
{
    let n = addrs.len();
    let mut i: usize = 0;
    assert(addrs@.subrange(0, n as int) =~= addrs@);
    while i < n
        invariant
            n == addrs@.len(),
            i <= n,
            broadcast_ipv4(addrs@) == broadcast_ipv4(addrs@.subrange(i as int, n as int)),
        decreases n - i,
    {
        assert(addrs@.subrange(i as int, n as int).drop_first() =~= addrs@.subrange(
            i as int + 1,
            n as int,
        ));
        let a = addrs[i];
        if a.has_broadcast {
            match a.ipv4 {
                Some(ip) => return Some(ip),
                None => {},
            }
        }
        i = i + 1;
    }
    None
}

/// The address to bind discovery to on interface `netif_name`: the first
/// IPv4 address with a broadcast address of the first interface so named.
pub fn get_local_ip_addr(ifs: &Vec<NetInterface>, netif_name: &str) -> (r: Option<u32>)
    ensures
        r == local_ip_of(ifs@, netif_name@),
{
    let n = ifs.len();
    let mut i: usize = 0;
    let target = String::from_str(netif_name);
    assert(ifs@.subrange(0, n as int) =~= ifs@);
    while i < n
        invariant
            n == ifs@.len(),
            i <= n,
            target@ == netif_name@,
            local_ip_of(ifs@, netif_name@) == local_ip_of(
                ifs@.subrange(i as int, n as int),
                netif_name@,
            ),
        decreases n - i,
    {
        assert(ifs@.subrange(i as int, n as int).drop_first() =~= ifs@.subrange(
            i as int + 1,
            n as int,
        ));
        if ifs[i].name == target {
            return first_broadcast_ipv4(&ifs[i].addrs);
        }
        i = i + 1;
    }
    None
}

} // verus!
