//! Addresses, and the choice of the local address that TCP checksums are
//! computed with.

use vstd::prelude::*;

verus! {

/// An IP address as a plain number: the four octets of an IPv4 address, or
/// the sixteen of an IPv6 address, read as one big-endian integer.
#[derive(Clone, Copy, Debug, PartialEq, Eq, Structural)]
pub enum IpAddress {
    V4(u32),
    V6(u128),
}

/// The number that the dotted quad `a.b.c.d` stands for.
pub open spec fn ipv4_bits(a: u8, b: u8, c: u8, d: u8) -> u32 {
    (a * 0x1000000 + b * 0x10000 + c * 0x100 + d) as u32
}

impl IpAddress {
    /// The IPv4 address `a.b.c.d`.
    pub fn from_octets(a: u8, b: u8, c: u8, d: u8) -> (addr: IpAddress)
        ensures
            addr == IpAddress::V4(ipv4_bits(a, b, c, d)),
    {
        let bits: u32 = (a as u32) * 0x1000000 + (b as u32) * 0x10000 + (c as u32) * 0x100 + (
        d as u32);
        IpAddress::V4(bits)
    }
}

/// The IPv4 address inside `addr`, as its number.
pub open spec fn ipv4_of(addr: IpAddress) -> u32 {
    match addr {
        IpAddress::V4(bits) => bits,
        IpAddress::V6(_) => 0,
    }
}

/// The IPv4 address inside `addr`. Only IPv4 is supported: an IPv6 address
/// has none.
pub fn addr_to_ipv4_addr(addr: IpAddress) -> (ipv4: u32)
    requires
        addr is V4,
    ensures
        addr == IpAddress::V4(ipv4),
        ipv4 == ipv4_of(addr),
{
    match addr {
        IpAddress::V4(ipv4) => ipv4,
        IpAddress::V6(_) => 0,
    }
}

/// What the choice of a source address reads of one local network interface.
pub struct NetworkInterface {
    pub is_up: bool,
    pub is_loopback: bool,
    pub ips: Vec<IpAddress>,
}

impl NetworkInterface {
    /// Whether probes can leave through this interface: it is up and is not
    /// the loopback.
    pub open spec fn considered(&self) -> bool {
        !self.is_loopback && self.is_up
    }
}

/// The first IPv4 address among `ips`, if there is one.
pub open spec fn first_ipv4(ips: Seq<IpAddress>) -> Option<u32>
    decreases ips.len(),
{
    if ips.len() == 0 {
        None
    } else if let IpAddress::V4(bits) = ips[0] {
        Some(bits)
    } else {
        first_ipv4(ips.drop_first())
    }
}

/// The source address for a list of interfaces: the first IPv4 address of the
/// first interface that is considered. Later interfaces are not tried when
/// that one has no IPv4 address.
pub open spec fn source_ip_of(interfaces: Seq<NetworkInterface>) -> Option<u32>
    decreases interfaces.len(),
{
    if interfaces.len() == 0 {
        None
    } else if interfaces[0].considered() {
        first_ipv4(interfaces[0].ips@)
    } else {
        source_ip_of(interfaces.drop_first())
    }
}

fn first_ipv4_of(ips: &Vec<IpAddress>) -> (found: Option<u32>)
    ensures
        found == first_ipv4(ips@),
{
    let mut i: usize = 0;
    assert(ips@.skip(0) =~= ips@);
    while i < ips.len()
        invariant
            i <= ips.len(),
            first_ipv4(ips@) == first_ipv4(ips@.skip(i as int)),
        decreases ips.len() - i,
    {
        assert(ips@.skip(i as int).drop_first() =~= ips@.skip(i + 1));
        match ips[i] {
            IpAddress::V4(bits) => {
                return Some(bits);
            },
            IpAddress::V6(_) => {},
        }
        i += 1;
    }
    None
}

/// Chooses the local IPv4 address that outbound probes carry as their source.
pub fn get_source_ip(interfaces: &Vec<NetworkInterface>) -> (source: Option<u32>)
    ensures
        source == source_ip_of(interfaces@),
{
    let mut i: usize = 0;
    assert(interfaces@.skip(0) =~= interfaces@);
    while i < interfaces.len()
        invariant
            i <= interfaces.len(),
            source_ip_of(interfaces@) == source_ip_of(interfaces@.skip(i as int)),
        decreases interfaces.len() - i,
    {
        assert(interfaces@.skip(i as int).drop_first() =~= interfaces@.skip(i + 1));
        if !interfaces[i].is_loopback && interfaces[i].is_up {
            return first_ipv4_of(&interfaces[i].ips);
        }
        i += 1;
    }
    None
}

} // verus!
