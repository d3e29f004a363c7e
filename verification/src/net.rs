//! Link-layer and network-layer addresses, held as numbers in network order.

use vstd::prelude::*;
use crate::bytes::{be16, be32, read_u16_be, read_u32_be};

verus! {

/// A 48-bit link-layer address: the first octet on the wire is the most
/// significant of the six low bytes of `value`.
#[derive(Clone, Copy, Debug, PartialEq, Eq, PartialOrd, Ord, Hash, Structural)]
pub struct MacAddr {
    pub value: u64,
}

impl MacAddr {
    pub fn to_u64(self) -> (r: u64)
        ensures
            r == self.value,
    {
        self.value
    }

    /// The six bytes at `off` of `bs` as an address.
    #[verifier::opaque]
    pub open spec fn spec_from_slice(bs: Seq<u8>, off: int) -> MacAddr {
        MacAddr { value: (be16(bs, off) * 0x1_0000_0000 + be32(bs, off + 2)) as u64 }
    }

    pub fn from_slice(bs: &[u8], off: usize) -> (r: MacAddr)
        requires
            off + 6 <= bs.len(),
        ensures
            r == MacAddr::spec_from_slice(bs@, off as int),
    {
        reveal(MacAddr::spec_from_slice);
        let hi: u64 = read_u16_be(bs, off) as u64;
        let lo: u64 = read_u32_be(bs, off + 2) as u64;
        MacAddr { value: hi * 0x1_0000_0000 + lo }
    }

    /// Whether the address is that of one station: the group bit of the first
    /// octet is clear.
    pub open spec fn spec_is_unicast(self) -> bool {
        (self.value / 0x100_0000_0000) % 2 == 0
    }

    pub fn is_unicast(self) -> (r: bool)
        ensures
            r == self.spec_is_unicast(),
    {
        (self.value / 0x100_0000_0000) % 2 == 0
    }
}

impl Default for MacAddr {
    fn default() -> (r: Self)
        ensures
            r.value == 0,
    {
        MacAddr { value: 0 }
    }
}

/// An IP address of either family: the first octet on the wire is the most
/// significant byte of the number.
#[derive(Clone, Copy, Debug, PartialEq, Eq, PartialOrd, Ord, Hash, Structural)]
pub enum IpAddr {
    V4(u32),
    V6(u128),
}

/// The big-endian 128-bit integer at `off`.
#[verifier::opaque]
pub open spec fn be128(s: Seq<u8>, off: int) -> int {
    be32(s, off) * 0x1_0000_0000_0000_0000_0000_0000 + be32(s, off + 4) * 0x1_0000_0000_0000_0000
        + be32(s, off + 8) * 0x1_0000_0000 + be32(s, off + 12)
}

impl IpAddr {
    pub open spec fn spec_is_ipv6(self) -> bool {
        self is V6
    }

    pub fn is_ipv6(&self) -> (r: bool)
        ensures
            r == self.spec_is_ipv6(),
    {
        match self {
            IpAddr::V4(_) => false,
            IpAddr::V6(_) => true,
        }
    }

    /// The four bytes at `off` of `bs` as an IPv4 address.
    pub open spec fn spec_v4_from_slice(bs: Seq<u8>, off: int) -> IpAddr {
        IpAddr::V4(be32(bs, off))
    }

    pub fn v4_from_slice(bs: &[u8], off: usize) -> (r: IpAddr)
        requires
            off + 4 <= bs.len(),
        ensures
            r == IpAddr::spec_v4_from_slice(bs@, off as int),
    {
        IpAddr::V4(read_u32_be(bs, off))
    }

    /// The sixteen bytes at `off` of `bs` as an IPv6 address.
    pub open spec fn spec_v6_from_slice(bs: Seq<u8>, off: int) -> IpAddr {
        IpAddr::V6(be128(bs, off) as u128)
    }

    pub fn v6_from_slice(bs: &[u8], off: usize) -> (r: IpAddr)
        requires
            off + 16 <= bs.len(),
        ensures
            r == IpAddr::spec_v6_from_slice(bs@, off as int),
    {
        reveal(be128);
        let a: u128 = read_u32_be(bs, off) as u128;
        let b: u128 = read_u32_be(bs, off + 4) as u128;
        let c: u128 = read_u32_be(bs, off + 8) as u128;
        let d: u128 = read_u32_be(bs, off + 12) as u128;
        IpAddr::V6(
            a * 0x1_0000_0000_0000_0000_0000_0000 + b * 0x1_0000_0000_0000_0000 + c
                * 0x1_0000_0000 + d,
        )
    }

    /// Whether the address is a loopback address: `127.0.0.0/8`, or `::1`.
    pub open spec fn spec_is_loopback(self) -> bool {
        match self {
            IpAddr::V4(v) => v / 0x100_0000 == 127,
            IpAddr::V6(v) => v == 1,
        }
    }

    pub fn is_loopback(&self) -> (r: bool)
        ensures
            r == self.spec_is_loopback(),
    {
        match self {
            IpAddr::V4(v) => *v / 0x100_0000 == 127,
            IpAddr::V6(v) => *v == 1,
        }
    }

    /// Whether the address is the all-zero address of its family.
    pub open spec fn spec_is_unspecified(self) -> bool {
        match self {
            IpAddr::V4(v) => v == 0,
            IpAddr::V6(v) => v == 0,
        }
    }

    pub fn is_unspecified(&self) -> (r: bool)
        ensures
            r == self.spec_is_unspecified(),
    {
        match self {
            IpAddr::V4(v) => *v == 0,
            IpAddr::V6(v) => *v == 0,
        }
    }

    /// Whether the address is a multicast address: `224.0.0.0/4`, or `ff00::/8`.
    pub open spec fn spec_is_multicast(self) -> bool {
        match self {
            IpAddr::V4(v) => v / 0x1000_0000 == 0xe,
            IpAddr::V6(v) => v / 0x100_0000_0000_0000_0000_0000_0000_0000 == 0xff,
        }
    }

    pub fn is_multicast(&self) -> (r: bool)
        ensures
            r == self.spec_is_multicast(),
    {
        match self {
            IpAddr::V4(v) => *v / 0x1000_0000 == 0xe,
            IpAddr::V6(v) => *v / 0x100_0000_0000_0000_0000_0000_0000_0000 == 0xff,
        }
    }

    /// Whether the address is link-local: `169.254.0.0/16`, or unicast in `fe80::/10`.
    pub open spec fn spec_is_link_local(self) -> bool {
        match self {
            IpAddr::V4(v) => v / 0x1_0000 == 0xa9fe,
            IpAddr::V6(v) => v / 0x40_0000_0000_0000_0000_0000_0000_0000 == 0x3fa,
        }
    }

    pub fn is_link_local(&self) -> (r: bool)
        ensures
            r == self.spec_is_link_local(),
    {
        match self {
            IpAddr::V4(v) => *v / 0x1_0000 == 0xa9fe,
            IpAddr::V6(v) => *v / 0x40_0000_0000_0000_0000_0000_0000_0000 == 0x3fa,
        }
    }

    /// Whether the address may stand in the list of the host's own addresses
    /// that is reported to the controller: loopback, unspecified, multicast and
    /// link-local addresses may not.
    pub open spec fn spec_is_excluded(self) -> bool {
        self.spec_is_loopback() || self.spec_is_unspecified() || self.spec_is_multicast()
            || self.spec_is_link_local()
    }

    pub fn is_excluded(&self) -> (r: bool)
        ensures
            r == self.spec_is_excluded(),
    {
        self.is_loopback() || self.is_unspecified() || self.is_multicast() || self.is_link_local()
    }
}

impl Default for IpAddr {
    fn default() -> (r: Self)
        ensures
            r == IpAddr::V4(0),
    {
        IpAddr::V4(0)
    }
}

} // verus!
