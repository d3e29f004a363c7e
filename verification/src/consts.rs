//! Byte offsets and lengths of the protocol headers that the packet decoder reads.
//!
//! Offsets of IP and transport fields are those of an untagged Ethernet frame
//! with a 20-byte IPv4 header; the decoder adds the size of the 802.1Q tags and
//! of the header options that come before a field.

use vstd::prelude::*;

verus! {

pub const MAC_ADDR_LEN: usize = 6;
pub const ETH_TYPE_LEN: usize = 2;
pub const VLAN_HEADER_SIZE: usize = 4;
pub const ETH_HEADER_SIZE: usize = 14;
pub const VLAN_ID_MASK: u16 = 0xfff;
pub const IPV4_ADDR_LEN: usize = 4;
pub const IPV6_ADDR_LEN: usize = 16;
pub const IPV6_HEADER_SIZE: usize = 40;
/// What an IPv6 header has more than a minimal IPv4 header.
pub const IPV6_HEADER_ADJUST: usize = 20;

pub const FIELD_OFFSET_DA: usize = 0;
pub const FIELD_OFFSET_SA: usize = 6;
pub const FIELD_OFFSET_ETH_TYPE: usize = 12;
pub const FIELD_OFFSET_IHL: usize = 14;
pub const FIELD_OFFSET_TOTAL_LEN: usize = 16;
pub const FIELD_OFFSET_FRAG: usize = 20;
pub const IPV4_TTL_OFFSET: usize = 22;
pub const IPV4_PROTO_OFFSET: usize = 23;
pub const FIELD_OFFSET_SIP: usize = 26;
pub const FIELD_OFFSET_DIP: usize = 30;
pub const FIELD_OFFSET_PAYLOAD_LEN: usize = 18;
pub const IPV6_PROTO_OFFSET: usize = 20;
pub const IPV6_HOP_LIMIT_OFFSET: usize = 21;
pub const FIELD_OFFSET_IPV6_SRC: usize = 22;
pub const FIELD_OFFSET_IPV6_DST: usize = 38;
pub const FIELD_OFFSET_SPORT: usize = 34;
pub const FIELD_OFFSET_DPORT: usize = 36;
pub const FIELD_OFFSET_TCP_SEQ: usize = 38;
pub const FIELD_OFFSET_TCP_ACK: usize = 42;
pub const FIELD_OFFSET_TCP_DATAOFF: usize = 46;
pub const FIELD_OFFSET_TCP_FLAG: usize = 47;
pub const FIELD_OFFSET_TCP_WIN: usize = 48;
/// Offset of the type byte of an IPv4 control message.
pub const FIELD_OFFSET_CONTROL_TYPE: usize = 34;
/// Length of the "rest of header" that some IPv4 control messages carry.
pub const FIELD_LEN_CONTROL_REST: usize = 4;
/// Offset of the type byte of an IPv6 control message with no extension header.
pub const CONTROL_V6_TYPE_OFFSET: usize = 54;

pub const ARP_OP_OFFSET: usize = 20;
pub const ARP_SPA_OFFSET: usize = 28;
pub const ARP_TPA_OFFSET: usize = 38;
/// The ARP operation code of a request.
pub const ARP_OP_REQUEST: u16 = 1;

pub const TCP_OPT_FLAG_WIN_SCALE: u8 = 0x80;
pub const TCP_OPT_FLAG_MSS: u8 = 0x40;
pub const TCP_OPT_FLAG_SACK_PERMIT: u8 = 0x20;
/// Mask of the bits of the option flags that hold the size of the SACK blocks.
pub const TCP_OPT_FLAG_SACK: u8 = 0x1f;
pub const TCP_OPT_WIN_SCALE_LEN: usize = 3;
pub const TCP_OPT_MSS_LEN: usize = 4;

/// Slack between the length computed from the headers and the length on the
/// wire below which the computed length is kept.
pub const PACKET_MAX_PADDING: usize = 16;

pub const NANOS_PER_SECOND: u64 = 1_000_000_000;
pub const NANOS_PER_MICRO: u64 = 1_000;
pub const SECONDS_IN_MINUTE: u64 = 60;
pub const NANOS_PER_MINUTE: u64 = 60_000_000_000;

/// The class of an endpoint that lies in the Internet.
pub const EPC_FROM_INTERNET: i32 = -2;

} // verus!
