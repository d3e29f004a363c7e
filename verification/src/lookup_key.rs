//! The key under which a packet is looked up in the flow table.

use vstd::prelude::*;
use crate::enums::{EthernetType, IpProtocol, TapType};
use crate::net::{IpAddr, MacAddr};

verus! {

/// What identifies the flow of a packet, in host order. `timestamp` is in
/// nanoseconds since the epoch.
#[derive(Clone, Copy, Debug, PartialEq, Eq, Structural)]
pub struct LookupKey {
    pub timestamp: u64,
    pub src_mac: MacAddr,
    pub dst_mac: MacAddr,
    pub src_ip: IpAddr,
    pub dst_ip: IpAddr,
    pub src_port: u16,
    pub dst_port: u16,
    pub eth_type: EthernetType,
    pub proto: IpProtocol,
    pub tap_type: TapType,
    pub l2_end_0: bool,
    pub l2_end_1: bool,
}

impl LookupKey {
    /// The key of no packet: zero throughout.
    pub open spec fn default_value() -> LookupKey {
        LookupKey {
            timestamp: 0,
            src_mac: MacAddr { value: 0 },
            dst_mac: MacAddr { value: 0 },
            src_ip: IpAddr::V4(0),
            dst_ip: IpAddr::V4(0),
            src_port: 0,
            dst_port: 0,
            eth_type: EthernetType::Llc,
            proto: IpProtocol::Ipv6HopByHop,
            tap_type: TapType::Any,
            l2_end_0: false,
            l2_end_1: false,
        }
    }
}

impl Default for LookupKey {
    fn default() -> (r: Self)
        ensures
            r == LookupKey::default_value(),
    {
        LookupKey {
            timestamp: 0,
            src_mac: MacAddr { value: 0 },
            dst_mac: MacAddr { value: 0 },
            src_ip: IpAddr::V4(0),
            dst_ip: IpAddr::V4(0),
            src_port: 0,
            dst_port: 0,
            eth_type: EthernetType::Llc,
            proto: IpProtocol::Ipv6HopByHop,
            tap_type: TapType::Any,
            l2_end_0: false,
            l2_end_1: false,
        }
    }
}

} // verus!
