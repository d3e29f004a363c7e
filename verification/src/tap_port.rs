//! The identifier of a capture interface.

use vstd::prelude::*;

verus! {

/// An opaque 64-bit identifier of where a packet was captured. Its four high
/// bits say what kind of source the rest identifies.
#[derive(Clone, Copy, Debug, PartialEq, Eq, PartialOrd, Ord, Hash, Structural)]
pub struct TapPort {
    pub value: u64,
}

pub const FROM_LOCAL_MAC: u8 = 0;
pub const FROM_GATEWAY_MAC: u8 = 1;
pub const FROM_TUNNEL_IPV4: u8 = 2;
pub const FROM_TUNNEL_IPV6: u8 = 3;
pub const FROM_ID: u8 = 4;
pub const FROM_NETFLOW: u8 = 5;
pub const FROM_SFLOW: u8 = 6;
pub const FROM_EBPF: u8 = 7;

impl TapPort {
    /// The kind of source, the four high bits.
    pub open spec fn source(self) -> int {
        self.value as int / 0x1000_0000_0000_0000
    }

    /// Whether the identifier is of a source of kind `w`.
    pub fn is_from(self, w: u8) -> (r: bool)
        ensures
            r == (self.source() == w),
    {
        self.value / 0x1000_0000_0000_0000 == w as u64
    }

    /// The identifier of the kernel probe on process `process_id`.
    pub fn from_ebpf(process_id: u32) -> (r: TapPort)
        ensures
            r.value == process_id + 7 * 0x1000_0000_0000_0000,
            r.source() == FROM_EBPF,
    {
        TapPort { value: process_id as u64 + 7 * 0x1000_0000_0000_0000 }
    }
}

impl Default for TapPort {
    fn default() -> (r: Self)
        ensures
            r.value == 0,
    {
        TapPort { value: 0 }
    }
}

} // verus!
