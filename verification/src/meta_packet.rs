//! The packet decoder: one captured frame in, the lookup key and the layer-4
//! metadata out.
//!
//! The decoder walks Ethernet, up to two 802.1Q tags, then ARP, IPv4 or IPv6
//! (with its chain of extension headers), then TCP (with its options), UDP or
//! ICMP. A frame that ends before a header is complete is no error: the decoder
//! stops and keeps what it has read so far. The one error is an EtherType that
//! it does not recognise.

use vstd::prelude::*;
use crate::bytes::{be16, be32, copy_range, read_u16_be, read_u32_be};
use crate::consts::{
    ARP_OP_OFFSET, ARP_OP_REQUEST, ARP_SPA_OFFSET, ARP_TPA_OFFSET, FIELD_LEN_CONTROL_REST,
    FIELD_OFFSET_CONTROL_TYPE, FIELD_OFFSET_FRAG, FIELD_OFFSET_IHL, FIELD_OFFSET_IPV6_DST,
    FIELD_OFFSET_IPV6_SRC, FIELD_OFFSET_PAYLOAD_LEN, FIELD_OFFSET_TCP_ACK,
    FIELD_OFFSET_TCP_DATAOFF, FIELD_OFFSET_TCP_FLAG, FIELD_OFFSET_TCP_SEQ, FIELD_OFFSET_TCP_WIN,
    FIELD_OFFSET_TOTAL_LEN, IPV4_PROTO_OFFSET, IPV4_TTL_OFFSET, IPV6_HEADER_ADJUST,
    IPV6_HOP_LIMIT_OFFSET, IPV6_PROTO_OFFSET,
    FIELD_OFFSET_DA, FIELD_OFFSET_DIP, FIELD_OFFSET_DPORT, FIELD_OFFSET_SA, FIELD_OFFSET_SIP,
    FIELD_OFFSET_SPORT, PACKET_MAX_PADDING, TCP_OPT_FLAG_MSS, TCP_OPT_FLAG_SACK, TCP_OPT_FLAG_SACK_PERMIT,
    TCP_OPT_FLAG_WIN_SCALE, TCP_OPT_MSS_LEN, TCP_OPT_WIN_SCALE_LEN, VLAN_HEADER_SIZE, VLAN_ID_MASK,
};
use crate::enums::{
    EthernetType, HeaderType, IpProtocol, PacketDirection, TapType, TcpFlags, TCP_MASK,
};
use crate::enums::{TCP_ACK, TCP_PSH_ACK, TCP_SYN, TCP_SYN_ACK};
use crate::error::Error;
use crate::flow::L7Protocol;
use crate::lookup_key::LookupKey;
use crate::net::{IpAddr, MacAddr};
use crate::outside;
use crate::tap_port::{TapPort, FROM_EBPF};

verus! {

/// What the decoder keeps of a TCP header.
pub struct MetaPacketTcpHeader {
    pub seq: u32,
    pub ack: u32,
    pub win_size: u16,
    pub mss: u16,
    pub flags: TcpFlags,
    pub data_offset: u8,
    pub win_scale: u8,
    pub sack_permitted: bool,
    /// The raw blocks of the last SACK option.
    pub sack: Option<Vec<u8>>,
}

impl MetaPacketTcpHeader {
    pub fn new() -> (r: Self)
        ensures
            r.seq == 0 && r.ack == 0 && r.win_size == 0 && r.mss == 0 && r.flags.bits == 0,
            r.data_offset == 0 && r.win_scale == 0 && !r.sack_permitted && r.sack is None,
    {
        MetaPacketTcpHeader {
            seq: 0,
            ack: 0,
            win_size: 0,
            mss: 0,
            flags: TcpFlags { bits: 0 },
            data_offset: 0,
            win_scale: 0,
            sack_permitted: false,
            sack: None,
        }
    }
}

/// The scratch record of one packet. Times are in nanoseconds.
///
/// The fields from `offset_ip_0` to `tcp_opt_sack_offset` are the decoder's own
/// bookkeeping; `update` fills them and the accessors read them.
pub struct MetaPacket<'a> {
    pub lookup_key: LookupKey,
    pub raw: Option<&'a [u8]>,
    /// Read it through `get_pkt_size`. Without the outer tag of a mirrored frame.
    pub packet_len: usize,
    pub vlan_tag_size: usize,
    pub ttl: u8,
    pub reset_ttl: bool,
    pub offset_ip_0: usize,
    pub offset_ip_1: usize,
    pub offset_mac_0: usize,
    pub offset_mac_1: usize,
    pub offset_port_0: usize,
    pub offset_port_1: usize,
    pub offset_ipv6_last_option: usize,
    pub offset_ipv6_fragment_option: usize,
    pub header_type: HeaderType,
    /// The 802.1Q tags, the IPv4 options, and for IPv6 the 20 bytes that its
    /// header has more than an IPv4 header, with the extension headers.
    pub l2_l3_opt_size: usize,
    /// The rest of an ICMP header, or the TCP options.
    pub l4_opt_size: usize,
    pub l3_payload_len: usize,
    pub l4_payload_len: usize,
    /// Set for a fragment and wherever the layer-4 header is not all there.
    pub npb_ignore_l4: bool,
    /// A neighbour advertisement from no link-local address, or an ARP request.
    pub nd_reply_or_arp_request: bool,
    pub data_offset_ihl_or_fl4b: u8,
    pub next_header: u8,
    pub tcp_options_flag: u8,
    pub tcp_opt_win_scale_offset: usize,
    pub tcp_opt_mss_offset: usize,
    pub tcp_opt_sack_offset: usize,
    pub tcp_data: MetaPacketTcpHeader,
    pub tap_port: TapPort,
    pub payload_len: u16,
    pub vlan: u16,
    pub direction: PacketDirection,
    pub is_active_service: bool,
    pub queue_hash: u8,
    pub packet_count: u64,
    pub packet_bytes: u64,
    pub start_time: u64,
    pub end_time: u64,
    pub source_ip: u32,
    /// The payload of a packet that a kernel probe captured at a socket.
    pub raw_from_ebpf: Vec<u8>,
    pub socket_id: u64,
    pub cap_seq: u64,
    pub l7_protocol_from_ebpf: L7Protocol,
    pub process_id: u32,
    pub thread_id: u32,
    pub syscall_trace_id: u64,
    pub process_name: String,
}

/// `a - b`, or zero where `b` is the greater.
pub open spec fn sat_sub(a: int, b: int) -> int {
    if a >= b {
        a - b
    } else {
        0
    }
}

/// The greater of two numbers.
pub open spec fn max_of(a: int, b: int) -> int {
    if a >= b {
        a
    } else {
        b
    }
}

/// How the walk over the link layer of a frame ended.
pub enum LinkOutcome {
    /// The frame ends inside the Ethernet header or inside a tag.
    Truncated,
    /// An EtherType is none that the decoder recognises.
    BadEtherType,
    /// The link layer is complete.
    Accepted,
}

/// What the link layer of a frame holds.
pub struct Link {
    pub outcome: LinkOutcome,
    /// The size of the 802.1Q tags: 0, 4 or 8.
    pub vlan_tag_size: usize,
    /// The VLAN id of the innermost tag that was read, if one was.
    pub vlan: Option<u16>,
    /// The EtherType behind the tags.
    pub eth_type: EthernetType,
}

/// The link layer of `frame`: Ethernet and up to two 802.1Q tags.
pub open spec fn link_of(frame: Seq<u8>) -> Link {
    let cut = Link {
        outcome: LinkOutcome::Truncated,
        vlan_tag_size: 0,
        vlan: None,
        eth_type: EthernetType::Llc,
    };
    if frame.len() < 14 {
        cut
    } else {
        match EthernetType::spec_from_code(be16(frame, 12)) {
            None => Link { outcome: LinkOutcome::BadEtherType, ..cut },
            Some(t0) => if t0 != EthernetType::Dot1Q {
                Link { outcome: LinkOutcome::Accepted, eth_type: t0, ..cut }
            } else if frame.len() < 18 {
                cut
            } else {
                let v1 = be16(frame, 14) & VLAN_ID_MASK;
                match EthernetType::spec_from_code(be16(frame, 16)) {
                    None => Link { outcome: LinkOutcome::BadEtherType, vlan: Some(v1), ..cut },
                    Some(t1) => if t1 != EthernetType::Dot1Q {
                        Link {
                            outcome: LinkOutcome::Accepted,
                            vlan_tag_size: 4,
                            vlan: Some(v1),
                            eth_type: t1,
                        }
                    } else if frame.len() < 22 {
                        Link { vlan: Some(v1), ..cut }
                    } else {
                        let v2 = be16(frame, 18) & VLAN_ID_MASK;
                        match EthernetType::spec_from_code(be16(frame, 20)) {
                            None => Link {
                                outcome: LinkOutcome::BadEtherType,
                                vlan: Some(v2),
                                ..cut
                            },
                            Some(t2) => Link {
                                outcome: LinkOutcome::Accepted,
                                vlan_tag_size: 8,
                                vlan: Some(v2),
                                eth_type: t2,
                            },
                        }
                    },
                }
            },
        }
    }
}

/// Decodes the link layer of `frame`.
pub fn decode_link(frame: &[u8]) -> (r: Link)
    ensures
        r == link_of(frame@),
        r.outcome is Accepted ==> frame.len() >= 14 + r.vlan_tag_size && r.vlan_tag_size <= 8,
{
    let cut = Link {
        outcome: LinkOutcome::Truncated,
        vlan_tag_size: 0,
        vlan: None,
        eth_type: EthernetType::Llc,
    };
    if frame.len() < 14 {
        return cut;
    }
    let t0 = match EthernetType::from_code(read_u16_be(frame, 12)) {
        None => {
            return Link { outcome: LinkOutcome::BadEtherType, ..cut };
        },
        Some(t) => t,
    };
    if t0 != EthernetType::Dot1Q {
        return Link { outcome: LinkOutcome::Accepted, eth_type: t0, ..cut };
    }
    if frame.len() < 18 {
        return cut;
    }
    let v1 = read_u16_be(frame, 14) & VLAN_ID_MASK;
    let t1 = match EthernetType::from_code(read_u16_be(frame, 16)) {
        None => {
            return Link { outcome: LinkOutcome::BadEtherType, vlan: Some(v1), ..cut };
        },
        Some(t) => t,
    };
    if t1 != EthernetType::Dot1Q {
        return Link {
            outcome: LinkOutcome::Accepted,
            vlan_tag_size: 4,
            vlan: Some(v1),
            eth_type: t1,
        };
    }
    if frame.len() < 22 {
        return Link { vlan: Some(v1), ..cut };
    }
    let v2 = read_u16_be(frame, 18) & VLAN_ID_MASK;
    match EthernetType::from_code(read_u16_be(frame, 20)) {
        None => Link { outcome: LinkOutcome::BadEtherType, vlan: Some(v2), ..cut },
        Some(t2) => Link {
            outcome: LinkOutcome::Accepted,
            vlan_tag_size: 8,
            vlan: Some(v2),
            eth_type: t2,
        },
    }
}


/// How the walk over the extension headers of an IPv6 packet ended.
pub struct Ip6Walk {
    /// Whether every extension header that was met lies within the frame.
    pub complete: bool,
    /// The next-header value behind the last extension header.
    pub next_header: u8,
    /// Where the walk ended.
    pub end: usize,
    /// The offset of the last extension header, or of the ICMPv6 or ESP header.
    pub last_option: usize,
    /// The offset of the last fragment header.
    pub fragment_option: usize,
}

/// The walk over the extension headers of `frame` from offset `off`, where a
/// header announced as `nh` begins. `last` and `frag` are the offsets found so
/// far. An authentication header is `(len + 2) * 4` bytes long, a destination,
/// hop-by-hop or routing header `len * 8 + 8`, a fragment header 8. The walk
/// ends at an ICMPv6 header, at an ESP header, whose rest is opaque, and at
/// whatever is no extension header.
pub open spec fn ip6_walk(frame: Seq<u8>, off: int, nh: u8, last: usize, frag: usize) -> Ip6Walk
    decreases frame.len() - off,
{
    let left = frame.len() - off;
    let cut = Ip6Walk {
        complete: false,
        next_header: nh,
        end: off as usize,
        last_option: 0,
        fragment_option: 0,
    };
    let done = Ip6Walk {
        complete: true,
        next_header: nh,
        end: off as usize,
        last_option: last,
        fragment_option: frag,
    };
    if off < 0 || left < 0 {
        cut
    } else {
        match IpProtocol::spec_from_code(nh) {
            Some(IpProtocol::Ah) => {
                if left < 2 || left < (frame[off + 1] + 2) * 4 {
                    cut
                } else {
                    ip6_walk(frame, off + (frame[off + 1] + 2) * 4, frame[off], off as usize, frag)
                }
            },
            Some(IpProtocol::Ipv6Destination) | Some(IpProtocol::Ipv6HopByHop) | Some(
                IpProtocol::Ipv6Routing,
            ) => {
                if left < 8 || left < frame[off + 1] * 8 + 8 {
                    cut
                } else {
                    ip6_walk(frame, off + frame[off + 1] * 8 + 8, frame[off], off as usize, frag)
                }
            },
            Some(IpProtocol::Ipv6Fragment) => {
                if left < 8 {
                    cut
                } else {
                    ip6_walk(frame, off + 8, frame[off], off as usize, off as usize)
                }
            },
            Some(IpProtocol::ControlMessageV6) => Ip6Walk { last_option: off as usize, ..done },
            Some(IpProtocol::Esp) => Ip6Walk {
                end: frame.len() as usize,
                last_option: off as usize,
                ..done
            },
            _ => done,
        }
    }
}

/// What the walk over the options of a TCP header found.
pub struct TcpOptions {
    /// One bit for each of window scale, MSS and SACK-permitted, and in the low
    /// bits the size of the SACK blocks.
    pub flag: u8,
    pub mss_offset: usize,
    pub win_scale_offset: usize,
    pub sack_offset: usize,
    pub mss: u16,
    pub win_scale: u8,
    pub sack_permitted: bool,
    pub sack: Option<Seq<u8>>,
}

/// The walk over the TCP options of `frame` from `off` up to `end`, begun with
/// what `st` holds. End-of-list stops the walk; a no-operation is one byte; MSS
/// gives a 16-bit value, window scale an 8-bit one; the blocks of a SACK option
/// of up to 32 bytes are kept raw; an option that runs past `end` stops the walk.
/// An option claims the length in its second byte, and at least 2.
pub open spec fn tcp_opt_walk(frame: Seq<u8>, off: int, end: int, st: TcpOptions) -> TcpOptions
    decreases end - off,
{
    if off < 0 || off + 1 >= end || end > frame.len() {
        st
    } else {
        let kind = frame[off];
        let len: int = if frame[off + 1] < 2 {
            2
        } else {
            frame[off + 1] as int
        };
        if kind == 0 {
            st
        } else if kind == 1 {
            tcp_opt_walk(frame, off + 1, end, st)
        } else if kind == 2 {
            if off + 4 > end {
                st
            } else {
                tcp_opt_walk(
                    frame,
                    off + 4,
                    end,
                    TcpOptions {
                        mss_offset: (off + 2) as usize,
                        flag: st.flag | 0x40,
                        mss: be16(frame, off + 2),
                        ..st
                    },
                )
            }
        } else if kind == 3 {
            if off + 3 > end {
                st
            } else {
                tcp_opt_walk(
                    frame,
                    off + 3,
                    end,
                    TcpOptions {
                        win_scale_offset: (off + 2) as usize,
                        flag: st.flag | 0x80,
                        win_scale: frame[off + 2],
                        ..st
                    },
                )
            }
        } else if kind == 4 {
            tcp_opt_walk(
                frame,
                off + 2,
                end,
                TcpOptions { flag: st.flag | 0x20, sack_permitted: true, ..st },
            )
        } else if kind == 5 {
            if off + len > end || len - 2 > 32 {
                st
            } else {
                tcp_opt_walk(
                    frame,
                    off + len,
                    end,
                    TcpOptions {
                        sack_offset: (off + 2) as usize,
                        flag: st.flag | ((len - 2) as u8),
                        sack: Some(frame.subrange(off + 2, off + len)),
                        ..st
                    },
                )
            }
        } else if off + len > end {
            st
        } else {
            tcp_opt_walk(frame, off + len, end, st)
        }
    }
}

/// The bytes of a kept SACK option.
pub open spec fn sack_view(sack: Option<Vec<u8>>) -> Option<Seq<u8>> {
    match sack {
        Some(v) => Some(v@),
        None => None,
    }
}

impl<'a> Default for MetaPacket<'a> {
    /// A packet with nothing in it, and every offset at zero.
    fn default() -> (r: Self)
        ensures
            r.blank(),
            r.offset_ip_0 == 0 && r.offset_ip_1 == 0 && r.offset_mac_0 == 0 && r.offset_mac_1 == 0,
            r.offset_port_0 == 0 && r.offset_port_1 == 0,
    {
        MetaPacket::new()
    }
}

impl<'a> MetaPacket<'a> {
    /// Whether the packet holds nothing: every field but the six offsets of
    /// the addresses and ports is at its zero.
    pub open spec fn blank(self) -> bool {
        &&& self.raw is None
        &&& self.lookup_key == LookupKey::default_value()
        &&& self.packet_len == 0 && self.vlan_tag_size == 0 && self.ttl == 0 && !self.reset_ttl
        &&& self.offset_ipv6_last_option == 0 && self.offset_ipv6_fragment_option == 0
        &&& self.header_type == HeaderType::Invalid
        &&& self.l2_l3_opt_size == 0 && self.l4_opt_size == 0 && self.l3_payload_len == 0
        &&& self.l4_payload_len == 0 && !self.npb_ignore_l4 && !self.nd_reply_or_arp_request
        &&& self.data_offset_ihl_or_fl4b == 0 && self.next_header == 0 && self.tcp_options_flag == 0
        &&& self.tcp_opt_win_scale_offset == 0 && self.tcp_opt_mss_offset == 0
        &&& self.tcp_opt_sack_offset == 0
        &&& self.tcp_data.seq == 0 && self.tcp_data.ack == 0 && self.tcp_data.flags.bits == 0
        &&& self.tcp_data.sack is None && self.tcp_data.mss == 0 && self.tcp_data.win_size == 0
        &&& self.tcp_data.data_offset == 0 && self.tcp_data.win_scale == 0
        &&& !self.tcp_data.sack_permitted
        &&& self.tap_port.value == 0 && self.payload_len == 0 && self.vlan == 0
        &&& self.direction == PacketDirection::ClientToServer
        &&& !self.is_active_service && self.queue_hash == 0 && self.packet_count == 0
        &&& self.packet_bytes == 0 && self.start_time == 0 && self.end_time == 0 && self.source_ip == 0
        &&& self.raw_from_ebpf@.len() == 0 && self.socket_id == 0 && self.cap_seq == 0
        &&& self.l7_protocol_from_ebpf == L7Protocol::Unknown
        &&& self.process_id == 0 && self.thread_id == 0 && self.syscall_trace_id == 0
        &&& self.process_name@.len() == 0
    }

    /// A packet with nothing in it, and every offset at zero.
    pub fn new() -> (r: MetaPacket<'a>)
        ensures
            r.blank(),
            r.offset_ip_0 == 0 && r.offset_ip_1 == 0 && r.offset_mac_0 == 0 && r.offset_mac_1 == 0,
            r.offset_port_0 == 0 && r.offset_port_1 == 0,
    {
        MetaPacket {
            lookup_key: LookupKey::default(),
            raw: None,
            packet_len: 0,
            vlan_tag_size: 0,
            ttl: 0,
            reset_ttl: false,
            offset_ip_0: 0,
            offset_ip_1: 0,
            offset_mac_0: 0,
            offset_mac_1: 0,
            offset_port_0: 0,
            offset_port_1: 0,
            offset_ipv6_last_option: 0,
            offset_ipv6_fragment_option: 0,
            header_type: HeaderType::Invalid,
            l2_l3_opt_size: 0,
            l4_opt_size: 0,
            l3_payload_len: 0,
            l4_payload_len: 0,
            npb_ignore_l4: false,
            nd_reply_or_arp_request: false,
            data_offset_ihl_or_fl4b: 0,
            next_header: 0,
            tcp_options_flag: 0,
            tcp_opt_win_scale_offset: 0,
            tcp_opt_mss_offset: 0,
            tcp_opt_sack_offset: 0,
            tcp_data: MetaPacketTcpHeader::new(),
            tap_port: TapPort { value: 0 },
            payload_len: 0,
            vlan: 0,
            direction: PacketDirection::ClientToServer,
            is_active_service: false,
            queue_hash: 0,
            packet_count: 0,
            packet_bytes: 0,
            start_time: 0,
            end_time: 0,
            source_ip: 0,
            raw_from_ebpf: Vec::new(),
            socket_id: 0,
            cap_seq: 0,
            l7_protocol_from_ebpf: L7Protocol::Unknown,
            process_id: 0,
            thread_id: 0,
            syscall_trace_id: 0,
            process_name: String::new(),
        }
    }

    /// Whether the offsets of the address and port fields are those of an
    /// untagged frame with a minimal IPv4 header, as the decoder expects to
    /// find them.
    pub open spec fn offsets_initial(self) -> bool {
        &&& self.offset_mac_0 == FIELD_OFFSET_SA
        &&& self.offset_mac_1 == FIELD_OFFSET_DA
        &&& self.offset_ip_0 == FIELD_OFFSET_SIP
        &&& self.offset_ip_1 == FIELD_OFFSET_DIP
        &&& self.offset_port_0 == FIELD_OFFSET_SPORT
        &&& self.offset_port_1 == FIELD_OFFSET_DPORT
    }

    /// A packet ready for `update`: nothing in it, and the offsets at their
    /// initial places.
    pub fn empty() -> (r: MetaPacket<'a>)
        ensures
            r.blank(),
            r.offsets_initial(),
    {
        let mut p = MetaPacket::new();
        p.offset_mac_0 = FIELD_OFFSET_SA;
        p.offset_mac_1 = FIELD_OFFSET_DA;
        p.offset_ip_0 = FIELD_OFFSET_SIP;
        p.offset_ip_1 = FIELD_OFFSET_DIP;
        p.offset_port_0 = FIELD_OFFSET_SPORT;
        p.offset_port_1 = FIELD_OFFSET_DPORT;
        p
    }

    /// Makes the packet ready for `update` again.
    pub fn reset(&mut self)
        ensures
            final(self).blank(),
            final(self).offsets_initial(),
    {
        *self = MetaPacket::empty();
    }

    /// Shifts the capture time by `time_diff` nanoseconds.
    pub fn timestamp_adjust(&mut self, time_diff: i64)
        requires
            0 <= old(self).lookup_key.timestamp + time_diff <= u64::MAX,
        ensures
            final(self).lookup_key.timestamp == old(self).lookup_key.timestamp + time_diff,
            *final(self) == (MetaPacket {
                lookup_key: final(self).lookup_key,
                ..*old(self)
            }),
            final(self).lookup_key == (LookupKey {
                timestamp: final(self).lookup_key.timestamp,
                ..old(self).lookup_key
            }),
    {
        if time_diff >= 0 {
            self.lookup_key.timestamp = self.lookup_key.timestamp + (time_diff as u64);
        } else {
            let back: u64 = ((-(time_diff as i128)) as u64);
            self.lookup_key.timestamp = self.lookup_key.timestamp - back;
        }
    }

    /// Whether the packet was captured on the way in to its destination.
    pub fn is_reversed(&self) -> (r: bool)
        ensures
            r == self.lookup_key.l2_end_1,
    {
        self.lookup_key.l2_end_1
    }

    /// Whether the packet is a neighbour advertisement that stands for a reply.
    pub fn is_ndp_response(&self) -> (r: bool)
        ensures
            r == (self.nd_reply_or_arp_request && self.lookup_key.proto
                == IpProtocol::ControlMessageV6),
    {
        self.nd_reply_or_arp_request && self.lookup_key.proto == IpProtocol::ControlMessageV6
    }

    pub fn is_syn(&self) -> (r: bool)
        ensures
            r == (self.tcp_data.flags.bits & TCP_MASK == TCP_SYN),
    {
        self.tcp_data.flags.bits & TCP_MASK == TCP_SYN
    }

    pub fn is_syn_ack(&self) -> (r: bool)
        ensures
            r == (self.tcp_data.flags.bits & TCP_MASK == TCP_SYN_ACK && self.payload_len == 0),
    {
        self.tcp_data.flags.bits & TCP_MASK == TCP_SYN_ACK && self.payload_len == 0
    }

    pub fn is_ack(&self) -> (r: bool)
        ensures
            r == (self.tcp_data.flags.bits & TCP_MASK == TCP_ACK && self.payload_len == 0),
    {
        self.tcp_data.flags.bits & TCP_MASK == TCP_ACK && self.payload_len == 0
    }

    pub fn is_psh_ack(&self) -> (r: bool)
        ensures
            r == (self.tcp_data.flags.bits & TCP_MASK == TCP_PSH_ACK && self.payload_len > 1),
    {
        self.tcp_data.flags.bits & TCP_MASK == TCP_PSH_ACK && self.payload_len > 1
    }

    pub fn has_valid_payload(&self) -> (r: bool)
        ensures
            r == (self.payload_len > 1),
    {
        self.payload_len > 1
    }

    /// The size that the TCP options take in a compressed header: one byte for
    /// the flags, two for an MSS, one for a window scale, and the SACK blocks.
    pub open spec fn spec_tcp_options_size(self) -> int {
        if self.header_type != HeaderType::Ipv4Tcp && self.header_type != HeaderType::Ipv6Tcp
            && self.l4_opt_size == 0 {
            0
        } else {
            1 + (if self.tcp_options_flag & TCP_OPT_FLAG_MSS != 0 {
                2int
            } else {
                0
            }) + (if self.tcp_options_flag & TCP_OPT_FLAG_WIN_SCALE != 0 {
                1int
            } else {
                0
            }) + (self.tcp_options_flag & TCP_OPT_FLAG_SACK)
        }
    }

    pub fn tcp_options_size(&self) -> (r: usize)
        ensures
            r == self.spec_tcp_options_size(),
    {
        if (self.header_type != HeaderType::Ipv4Tcp && self.header_type != HeaderType::Ipv6Tcp)
            && self.l4_opt_size == 0 {
            return 0;
        }
        let mut size: usize = 1;
        if self.tcp_options_flag & TCP_OPT_FLAG_MSS != 0 {
            size += TCP_OPT_MSS_LEN - 2;
        }
        if self.tcp_options_flag & TCP_OPT_FLAG_WIN_SCALE != 0 {
            size += TCP_OPT_WIN_SCALE_LEN - 2;
        }
        size + (self.tcp_options_flag & TCP_OPT_FLAG_SACK) as usize
    }

    /// The length of the packet, capped at the greatest 16-bit number.
    pub open spec fn spec_pkt_size(self) -> u16 {
        if self.packet_len < u16::MAX {
            self.packet_len as u16
        } else {
            u16::MAX
        }
    }

    pub fn get_pkt_size(&self) -> (r: u16)
        ensures
            r == self.spec_pkt_size(),
    {
        if self.packet_len < u16::MAX as usize {
            self.packet_len as u16
        } else {
            u16::MAX
        }
    }

    /// The length of the packet as a compressed header restores it: without
    /// the outer tag of a double-tagged frame. A length too small to hold that
    /// tag gives zero.
    pub open spec fn spec_restored_packet_size(self) -> int {
        let skip: int = if self.vlan_tag_size > VLAN_HEADER_SIZE {
            self.vlan_tag_size - VLAN_HEADER_SIZE
        } else {
            0
        };
        if self.spec_pkt_size() == 0 {
            0
        } else {
            sat_sub(self.spec_pkt_size() as int, skip)
        }
    }

    pub fn get_restored_packet_size(&self) -> (r: u16)
        ensures
            r == self.spec_restored_packet_size(),
    {
        let mut skip_vlan_header_size: usize = 0;
        if self.vlan_tag_size > VLAN_HEADER_SIZE {
            skip_vlan_header_size = self.vlan_tag_size - VLAN_HEADER_SIZE;
        }
        let packet_size = self.get_pkt_size();
        if packet_size == 0 {
            packet_size
        } else if skip_vlan_header_size > packet_size as usize {
            0
        } else {
            packet_size - skip_vlan_header_size as u16
        }
    }

    /// Where the layer-4 payload begins in the frame.
    pub open spec fn payload_offset(self) -> int {
        self.header_type.spec_min_packet_size() + self.l2_l3_opt_size + self.l4_opt_size
    }

    /// The payload of a TCP or UDP packet: what a kernel probe captured, or
    /// what follows the headers in the frame, if anything does.
    pub open spec fn spec_l4_payload(self) -> Option<Seq<u8>> {
        if self.lookup_key.proto != IpProtocol::Tcp && self.lookup_key.proto != IpProtocol::Udp {
            None
        } else if self.tap_port.source() == FROM_EBPF {
            Some(self.raw_from_ebpf@)
        } else if self.header_type == HeaderType::Invalid {
            None
        } else {
            match self.raw {
                Some(raw) => if raw@.len() > self.payload_offset() {
                    Some(raw@.subrange(self.payload_offset(), raw@.len() as int))
                } else {
                    None
                },
                None => None,
            }
        }
    }

    pub fn get_l4_payload(&self) -> (r: Option<&[u8]>)
        ensures
            match r {
                Some(p) => self.spec_l4_payload() == Some(p@),
                None => self.spec_l4_payload() is None,
            },
    {
        if self.lookup_key.proto != IpProtocol::Tcp && self.lookup_key.proto != IpProtocol::Udp {
            return None;
        }
        if self.tap_port.is_from(FROM_EBPF) {
            return Some(self.raw_from_ebpf.as_slice());
        }
        if self.header_type == HeaderType::Invalid {
            return None;
        }
        let min_size = self.header_type.min_packet_size();
        match self.raw {
            Some(raw) => {
                let n = raw.len();
                if self.l2_l3_opt_size >= n || self.l4_opt_size >= n - self.l2_l3_opt_size {
                    return None;
                }
                let options = self.l2_l3_opt_size + self.l4_opt_size;
                if min_size >= n - options {
                    return None;
                }
                Some(slice_subrange(raw, min_size + options, n))
            },
            None => None,
        }
    }

    /// The length of the layer-3 payload.
    pub fn l3_payload_len(&self) -> (r: usize)
        ensures
            r == self.l3_payload_len,
    {
        self.l3_payload_len
    }

    /// The length of the layer-4 payload.
    pub fn l4_payload_len(&self) -> (r: usize)
        ensures
            r == self.l4_payload_len,
    {
        self.l4_payload_len
    }

    /// The identifier of the flow of a packet from a kernel probe: the socket
    /// in the low 64 bits, the code of the protocol above them.
    pub fn ebpf_flow_id(&self) -> (r: u128)
        ensures
            r == self.socket_id + self.l7_protocol_from_ebpf.spec_code() * 0x1_0000_0000_0000_0000,
    {
        let protocol: u128 = self.l7_protocol_from_ebpf.code() as u128;
        (self.socket_id as u128) + protocol * 0x1_0000_0000_0000_0000
    }

    /// Gives a packet from or to a loopback address the link-layer address `mac`
    /// on that side.
    pub fn set_loopback_mac(&mut self, mac: MacAddr)
        ensures
            final(self).lookup_key == (LookupKey {
                src_mac: if old(self).lookup_key.src_ip.spec_is_loopback() {
                    mac
                } else {
                    old(self).lookup_key.src_mac
                },
                dst_mac: if old(self).lookup_key.dst_ip.spec_is_loopback() {
                    mac
                } else {
                    old(self).lookup_key.dst_mac
                },
                ..old(self).lookup_key
            }),
            *final(self) == (MetaPacket { lookup_key: final(self).lookup_key, ..*old(self) }),
    {
        if self.lookup_key.src_ip.is_loopback() {
            self.lookup_key.src_mac = mac;
        }
        if self.lookup_key.dst_ip.is_loopback() {
            self.lookup_key.dst_mac = mac;
        }
    }
}

/// The extension headers of an IPv6 packet that lies behind `l2_opt_size`
/// bytes of tags, where `last` and `frag` are the offsets known before. Where an
/// extension header runs past the frame, the walk counts for nothing: the result
/// is the first next-header value, no length and no offsets.
pub open spec fn ip6_options(frame: Seq<u8>, l2_opt_size: int, last: usize, frag: usize) -> Ip6Walk {
    let first = frame[IPV6_PROTO_OFFSET + l2_opt_size];
    let walk = ip6_walk(frame, 54 + l2_opt_size, first, last, frag);
    if walk.complete {
        walk
    } else {
        Ip6Walk {
            complete: false,
            next_header: first,
            end: (54 + l2_opt_size) as usize,
            last_option: 0,
            fragment_option: 0,
        }
    }
}

/// Walks the extension headers of the IPv6 packet in `frame`.
pub fn walk_ip6_options(frame: &[u8], l2_opt_size: usize, last: usize, frag: usize) -> (r: Ip6Walk)
    requires
        l2_opt_size <= 8,
        frame@.len() >= 54 + l2_opt_size,
    ensures
        r == ip6_options(frame@, l2_opt_size as int, last, frag),
        54 + l2_opt_size <= r.end <= frame@.len(),
{
    let n = frame.len();
    let first = frame[IPV6_PROTO_OFFSET + l2_opt_size];
    let original_offset: usize = 54 + l2_opt_size;
    let cut = Ip6Walk {
        complete: false,
        next_header: first,
        end: original_offset,
        last_option: 0,
        fragment_option: 0,
    };
    let mut option_offset: usize = original_offset;
    let mut next_header = first;
    let mut last_option = last;
    let mut fragment_option = frag;
    loop
        invariant
            first == frame@[IPV6_PROTO_OFFSET + l2_opt_size],
            l2_opt_size <= 8,
            frame@.len() == n,
            original_offset == 54 + l2_opt_size,
            original_offset <= option_offset <= n,
            cut == (Ip6Walk {
                complete: false,
                next_header: first,
                end: original_offset,
                last_option: 0,
                fragment_option: 0,
            }),
            ip6_walk(frame@, original_offset as int, first, last, frag) == ip6_walk(
                frame@,
                option_offset as int,
                next_header,
                last_option,
                fragment_option,
            ),
        decreases n - option_offset,
    {
        let left = n - option_offset;
        match IpProtocol::from_code(next_header) {
            Some(IpProtocol::Ah) => {
                if left < 2 {
                    return cut;
                }
                let length: usize = (frame[option_offset + 1] as usize + 2) * 4;
                if left < length {
                    return cut;
                }
                last_option = option_offset;
                next_header = frame[option_offset];
                option_offset += length;
            },
            Some(IpProtocol::Ipv6Destination) | Some(IpProtocol::Ipv6HopByHop) | Some(
                IpProtocol::Ipv6Routing,
            ) => {
                if left < 8 {
                    return cut;
                }
                let length: usize = frame[option_offset + 1] as usize * 8 + 8;
                if left < length {
                    return cut;
                }
                last_option = option_offset;
                next_header = frame[option_offset];
                option_offset += length;
            },
            Some(IpProtocol::Ipv6Fragment) => {
                if left < 8 {
                    return cut;
                }
                last_option = option_offset;
                fragment_option = option_offset;
                next_header = frame[option_offset];
                option_offset += 8;
            },
            Some(IpProtocol::ControlMessageV6) => {
                return Ip6Walk {
                    complete: true,
                    next_header,
                    end: option_offset,
                    last_option: option_offset,
                    fragment_option,
                };
            },
            Some(IpProtocol::Esp) => {
                return Ip6Walk {
                    complete: true,
                    next_header,
                    end: n,
                    last_option: option_offset,
                    fragment_option,
                };
            },
            _ => {
                return Ip6Walk {
                    complete: true,
                    next_header,
                    end: option_offset,
                    last_option,
                    fragment_option,
                };
            },
        }
    }
}

/// What the walk over the options of a TCP header has found so far, as the
/// decoder holds it.
pub struct TcpOptionState {
    pub flag: u8,
    pub mss_offset: usize,
    pub win_scale_offset: usize,
    pub sack_offset: usize,
    pub mss: u16,
    pub win_scale: u8,
    pub sack_permitted: bool,
    pub sack: Option<Vec<u8>>,
}

impl TcpOptionState {
    pub open spec fn model(self) -> TcpOptions {
        TcpOptions {
            flag: self.flag,
            mss_offset: self.mss_offset,
            win_scale_offset: self.win_scale_offset,
            sack_offset: self.sack_offset,
            mss: self.mss,
            win_scale: self.win_scale,
            sack_permitted: self.sack_permitted,
            sack: sack_view(self.sack),
        }
    }
}

/// Walks the TCP options of `frame` from `start` up to `end`.
pub fn walk_tcp_options(frame: &[u8], start: usize, end: usize, found: TcpOptionState) -> (r:
    TcpOptionState)
    requires
        start <= end <= frame@.len(),
        frame@.len() <= isize::MAX,
    ensures
        r.model() == tcp_opt_walk(frame@, start as int, end as int, found.model()),
{
    let ghost st0 = found.model();
    let mut st = found;
    let mut offset: usize = start;
    while offset + 1 < end
        invariant
            st0 == found.model(),
            start <= offset <= end <= frame@.len() <= isize::MAX,
            tcp_opt_walk(frame@, start as int, end as int, st0) == tcp_opt_walk(
                frame@,
                offset as int,
                end as int,
                st.model(),
            ),
        decreases frame@.len() - offset,
    {
        let claimed = frame[offset + 1];
        let option_length: usize = if claimed < 2 {
            2
        } else {
            claimed as usize
        };
        let kind = outside::tcp_option_kind(frame[offset]);
        if kind == outside::tcp_option_eol() {
            return st;
        } else if kind == outside::tcp_option_nop() {
            offset += 1;
        } else if kind == outside::tcp_option_mss() {
            if offset + TCP_OPT_MSS_LEN > end {
                return st;
            }
            st.mss_offset = offset + 2;
            st.flag = st.flag | TCP_OPT_FLAG_MSS;
            st.mss = read_u16_be(frame, offset + 2);
            offset += TCP_OPT_MSS_LEN;
        } else if kind == outside::tcp_option_wscale() {
            if offset + TCP_OPT_WIN_SCALE_LEN > end {
                return st;
            }
            st.win_scale_offset = offset + 2;
            st.flag = st.flag | TCP_OPT_FLAG_WIN_SCALE;
            st.win_scale = frame[offset + 2];
            offset += TCP_OPT_WIN_SCALE_LEN;
        } else if kind == outside::tcp_option_sack_permitted() {
            st.flag = st.flag | TCP_OPT_FLAG_SACK_PERMIT;
            st.sack_permitted = true;
            offset += 2;
        } else if kind == outside::tcp_option_sack() {
            if offset + option_length > end {
                return st;
            }
            let sack_size: usize = option_length - 2;
            if sack_size > 32 {
                return st;
            }
            st.sack_offset = offset + 2;
            st.flag = st.flag | (sack_size as u8);
            st.sack = Some(copy_range(frame, offset + 2, offset + option_length));
            offset += option_length;
        } else {
            if offset + option_length > end {
                return st;
            }
            offset += option_length;
        }
    }
    st
}

/// Whether an IPv4 control message of type `t` carries four more bytes of
/// header: destination unreachable, source quench, redirect and parameter problem.
pub open spec fn control_type_has_rest(t: u8) -> bool {
    t == 3 || t == 4 || t == 5 || t == 12
}

/// The low 16 bits of `n`.
pub open spec fn low16(n: int) -> u16 {
    (n % 0x1_0000) as u16
}

fn low16_of(n: usize) -> (r: u16)
    ensures
        r == low16(n as int),
{
    (n % 0x1_0000) as u16
}

fn sat_sub_of(a: usize, b: usize) -> (r: usize)
    ensures
        r == sat_sub(a as int, b as int),
{
    if a >= b {
        a - b
    } else {
        0
    }
}

fn max_usize(a: usize, b: usize) -> (r: usize)
    ensures
        r == max_of(a as int, b as int),
{
    if a >= b {
        a
    } else {
        b
    }
}

/// How far the decoder gets into the network layer of a frame.
#[derive(Clone, Copy, PartialEq, Eq, Structural)]
pub enum NetworkReach {
    /// The frame ends inside the IP header.
    HeaderCut,
    /// The options that the IPv4 header announces run past the frame.
    OptionsCut,
    /// The protocol is none that the decoder recognises.
    UnknownProtocol,
    /// The packet is a fragment.
    Fragment,
    /// The decoder goes on with layer 4.
    Complete,
}

/// What the IPv4 header of a frame holds.
pub struct Ipv4Info {
    pub reach: NetworkReach,
    pub ihl: u8,
    pub src_ip: IpAddr,
    pub dst_ip: IpAddr,
    pub ttl: u8,
    /// The length of the packet with its link layer, by the total length that
    /// the header announces; a total length of zero, as segmentation offload
    /// leaves it, stands for the length of the frame.
    pub packet_len: usize,
    pub l3_opt_size: usize,
    pub l3_payload_len: usize,
    pub protocol: IpProtocol,
    /// The bytes of the frame behind the header and its options.
    pub rest: usize,
}

/// The IPv4 header of `frame` behind `vlan` bytes of tags. A packet with the
/// more-fragments bit or a fragment offset is a fragment.
pub open spec fn ipv4_of(frame: Seq<u8>, vlan: int) -> Ipv4Info {
    let rem = frame.len() - 34 - vlan;
    let ihl = frame[FIELD_OFFSET_IHL + vlan] & 0xf;
    let announced = be16(frame, FIELD_OFFSET_TOTAL_LEN + vlan);
    let total: int = if announced == 0 {
        rem + 20
    } else {
        announced as int
    };
    let packet_len = max_of(total + 14 + vlan, 34 + vlan);
    let l3_opt: int = if ihl * 4 > 20 {
        ihl * 4 - 20
    } else {
        0
    };
    let protocol = IpProtocol::spec_from_code(frame[IPV4_PROTO_OFFSET + vlan]);
    let cut = Ipv4Info {
        reach: NetworkReach::HeaderCut,
        ihl: 0,
        src_ip: IpAddr::V4(0),
        dst_ip: IpAddr::V4(0),
        ttl: 0,
        packet_len: 0,
        l3_opt_size: 0,
        l3_payload_len: 0,
        protocol: IpProtocol::Ipv6HopByHop,
        rest: 0,
    };
    if rem < 0 {
        cut
    } else {
        let head = Ipv4Info {
            reach: NetworkReach::OptionsCut,
            ihl: ihl,
            src_ip: IpAddr::spec_v4_from_slice(frame, FIELD_OFFSET_SIP + vlan),
            dst_ip: IpAddr::spec_v4_from_slice(frame, FIELD_OFFSET_DIP + vlan),
            ttl: frame[IPV4_TTL_OFFSET + vlan],
            packet_len: packet_len as usize,
            l3_opt_size: l3_opt as usize,
            ..cut
        };
        if rem < l3_opt {
            head
        } else {
            let sized = Ipv4Info {
                reach: NetworkReach::UnknownProtocol,
                l3_payload_len: sat_sub(packet_len, 34 + vlan + l3_opt) as usize,
                rest: (rem - l3_opt) as usize,
                ..head
            };
            match protocol {
                None => sized,
                Some(p) => Ipv4Info {
                    reach: if be16(frame, FIELD_OFFSET_FRAG + vlan) & 0x3fff != 0 {
                        NetworkReach::Fragment
                    } else {
                        NetworkReach::Complete
                    },
                    protocol: p,
                    ..sized
                },
            }
        }
    }
}

/// Decodes the IPv4 header of `frame` behind `vlan` bytes of tags.
pub fn decode_ipv4(frame: &[u8], vlan: usize) -> (r: Ipv4Info)
    requires
        vlan <= 8,
        frame@.len() >= 14 + vlan,
        frame@.len() <= isize::MAX,
    ensures
        r == ipv4_of(frame@, vlan as int),
        !(r.reach is HeaderCut) ==> frame@.len() >= 34 + vlan && r.packet_len <= frame@.len()
            + 0x1_0100 && r.l3_opt_size <= 40,
        (r.reach is Complete || r.reach is Fragment || r.reach is UnknownProtocol) ==> r.rest + 34
            + vlan + r.l3_opt_size == frame@.len(),
{
    let cut = Ipv4Info {
        reach: NetworkReach::HeaderCut,
        ihl: 0,
        src_ip: IpAddr::V4(0),
        dst_ip: IpAddr::V4(0),
        ttl: 0,
        packet_len: 0,
        l3_opt_size: 0,
        l3_payload_len: 0,
        protocol: IpProtocol::Ipv6HopByHop,
        rest: 0,
    };
    if frame.len() - 14 - vlan < 20 {
        return cut;
    }
    let rem: usize = frame.len() - 34 - vlan;
    let version_ihl = frame[FIELD_OFFSET_IHL + vlan];
    let ihl = version_ihl & 0xf;
    assert(ihl <= 15) by (bit_vector)
        requires
            ihl == version_ihl & 0xf,
    ;
    let announced = read_u16_be(frame, FIELD_OFFSET_TOTAL_LEN + vlan);
    let total_length: usize = if announced == 0 {
        rem + 20
    } else {
        announced as usize
    };
    let packet_len = max_usize(total_length + 14 + vlan, 34 + vlan);
    let l3_opt_size: usize = if ihl as usize * 4 > 20 {
        ihl as usize * 4 - 20
    } else {
        0
    };
    let head = Ipv4Info {
        reach: NetworkReach::OptionsCut,
        ihl,
        src_ip: IpAddr::v4_from_slice(frame, FIELD_OFFSET_SIP + vlan),
        dst_ip: IpAddr::v4_from_slice(frame, FIELD_OFFSET_DIP + vlan),
        ttl: frame[IPV4_TTL_OFFSET + vlan],
        packet_len,
        l3_opt_size,
        ..cut
    };
    if rem < l3_opt_size {
        return head;
    }
    let sized = Ipv4Info {
        reach: NetworkReach::UnknownProtocol,
        l3_payload_len: sat_sub_of(packet_len, 34 + vlan + l3_opt_size),
        rest: rem - l3_opt_size,
        ..head
    };
    match IpProtocol::from_code(frame[IPV4_PROTO_OFFSET + vlan]) {
        None => sized,
        Some(p) => Ipv4Info {
            reach: if read_u16_be(frame, FIELD_OFFSET_FRAG + vlan) & 0x3fff != 0 {
                NetworkReach::Fragment
            } else {
                NetworkReach::Complete
            },
            protocol: p,
            ..sized
        },
    }
}

/// What the IPv6 header of a frame and its extension headers hold.
pub struct Ipv6Info {
    pub reach: NetworkReach,
    pub src_ip: IpAddr,
    pub dst_ip: IpAddr,
    pub ttl: u8,
    /// The low four bits of the announced payload length.
    pub low_bits: u8,
    /// The next-header value of the IPv6 header itself.
    pub first_next_header: u8,
    pub options: Ip6Walk,
    /// The length of the packet with its link layer, by the payload length
    /// that the header announces; a payload length of zero, as segmentation
    /// offload leaves it, stands for what the frame holds.
    pub packet_len: usize,
    pub options_length: usize,
    pub protocol: IpProtocol,
    /// The bytes of the frame behind the header and its extension headers.
    pub rest: usize,
}

/// The IPv6 header of `frame` behind `vlan` bytes of tags, where `last` and
/// `frag` are the offsets of extension headers known before.
pub open spec fn ipv6_of(frame: Seq<u8>, vlan: int, last: usize, frag: usize) -> Ipv6Info {
    let rem = frame.len() - 54 - vlan;
    let announced = be16(frame, FIELD_OFFSET_PAYLOAD_LEN + vlan);
    let payload = if announced == 0 {
        low16(rem)
    } else {
        announced
    };
    let options = ip6_options(frame, vlan, last, frag);
    let options_length = options.end - (54 + vlan);
    let info = Ipv6Info {
        reach: NetworkReach::HeaderCut,
        src_ip: IpAddr::spec_v6_from_slice(frame, FIELD_OFFSET_IPV6_SRC + vlan),
        dst_ip: IpAddr::spec_v6_from_slice(frame, FIELD_OFFSET_IPV6_DST + vlan),
        ttl: frame[IPV6_HOP_LIMIT_OFFSET + vlan],
        low_bits: (announced & 0xf) as u8,
        first_next_header: frame[IPV6_PROTO_OFFSET + vlan],
        options: options,
        packet_len: (payload + 54 + vlan) as usize,
        options_length: options_length as usize,
        protocol: IpProtocol::Ipv6HopByHop,
        rest: 0,
    };
    if rem < 0 {
        Ipv6Info {
            src_ip: IpAddr::V4(0),
            dst_ip: IpAddr::V4(0),
            ttl: 0,
            low_bits: 0,
            first_next_header: 0,
            options: Ip6Walk {
                complete: false,
                next_header: 0,
                end: 0,
                last_option: 0,
                fragment_option: 0,
            },
            packet_len: 0,
            options_length: 0,
            ..info
        }
    } else {
        match IpProtocol::spec_from_code(options.next_header) {
            None => Ipv6Info { reach: NetworkReach::UnknownProtocol, ..info },
            Some(p) => Ipv6Info {
                reach: if rem < options_length {
                    NetworkReach::OptionsCut
                } else {
                    NetworkReach::Complete
                },
                protocol: p,
                rest: sat_sub(rem, options_length) as usize,
                ..info
            },
        }
    }
}

/// Decodes the IPv6 header of `frame` behind `vlan` bytes of tags.
pub fn decode_ipv6(frame: &[u8], vlan: usize, last: usize, frag: usize) -> (r: Ipv6Info)
    requires
        vlan <= 8,
        frame@.len() >= 14 + vlan,
        frame@.len() <= isize::MAX,
    ensures
        r == ipv6_of(frame@, vlan as int, last, frag),
        !(r.reach is HeaderCut) ==> frame@.len() >= 54 + vlan && r.packet_len <= 0x1_0100
            && r.options_length + 54 + vlan <= frame@.len(),
        r.reach is Complete ==> r.rest + 54 + vlan + r.options_length == frame@.len(),
{
    if frame.len() - 14 - vlan < 40 {
        return Ipv6Info {
            reach: NetworkReach::HeaderCut,
            src_ip: IpAddr::V4(0),
            dst_ip: IpAddr::V4(0),
            ttl: 0,
            low_bits: 0,
            first_next_header: 0,
            options: Ip6Walk {
                complete: false,
                next_header: 0,
                end: 0,
                last_option: 0,
                fragment_option: 0,
            },
            packet_len: 0,
            options_length: 0,
            protocol: IpProtocol::Ipv6HopByHop,
            rest: 0,
        };
    }
    let rem: usize = frame.len() - 54 - vlan;
    let announced = read_u16_be(frame, FIELD_OFFSET_PAYLOAD_LEN + vlan);
    let payload: u16 = if announced == 0 {
        low16_of(rem)
    } else {
        announced
    };
    let options = walk_ip6_options(frame, vlan, last, frag);
    let options_length = options.end - (54 + vlan);
    let next_header = options.next_header;
    let info = Ipv6Info {
        reach: NetworkReach::HeaderCut,
        src_ip: IpAddr::v6_from_slice(frame, FIELD_OFFSET_IPV6_SRC + vlan),
        dst_ip: IpAddr::v6_from_slice(frame, FIELD_OFFSET_IPV6_DST + vlan),
        ttl: frame[IPV6_HOP_LIMIT_OFFSET + vlan],
        low_bits: (announced & 0xf) as u8,
        first_next_header: frame[IPV6_PROTO_OFFSET + vlan],
        options,
        packet_len: payload as usize + 54 + vlan,
        options_length,
        protocol: IpProtocol::Ipv6HopByHop,
        rest: 0,
    };
    match IpProtocol::from_code(next_header) {
        None => Ipv6Info { reach: NetworkReach::UnknownProtocol, ..info },
        Some(p) => Ipv6Info {
            reach: if rem < options_length {
                NetworkReach::OptionsCut
            } else {
                NetworkReach::Complete
            },
            protocol: p,
            rest: sat_sub_of(rem, options_length),
            ..info
        },
    }
}

/// How far the decoder gets into the transport layer of a frame.
#[derive(Clone, Copy, PartialEq, Eq, Structural)]
pub enum TransportReach {
    /// The frame ends inside the header.
    HeaderCut,
    /// The frame ends inside what the header announces behind itself: the rest
    /// of an ICMP header, or the TCP options.
    OptionsCut,
    /// The header is all there.
    Complete,
}

/// `a - b`, or zero where `b` is the greater: the length of what follows the
/// headers, by the length `packet_len` that the packet announces, when the
/// headers take `frame_len - rem` bytes.
pub open spec fn announced_rest(packet_len: usize, frame_len: int, rem: int) -> int {
    sat_sub(packet_len as int, frame_len - rem)
}

/// What the ICMP header of an IPv4 packet holds.
pub struct ControlInfo {
    pub reach: TransportReach,
    pub packet_len: usize,
    pub has_rest: bool,
    pub payload_len: u16,
}

/// The ICMP header of `frame` behind `l23` bytes of tags and options, where the
/// headers before it announce a length of `packet_len` and leave `rem` bytes.
pub open spec fn control_of(frame: Seq<u8>, l23: int, packet_len: usize, rem: usize) -> ControlInfo {
    let sized = max_of(packet_len as int, 42 + l23) as usize;
    let has_rest = control_type_has_rest(frame[FIELD_OFFSET_CONTROL_TYPE + l23]);
    if rem < 8 {
        ControlInfo {
            reach: TransportReach::HeaderCut,
            packet_len: sized,
            has_rest: false,
            payload_len: 0,
        }
    } else if has_rest && rem - 8 < 4 {
        ControlInfo {
            reach: TransportReach::OptionsCut,
            packet_len: sized,
            has_rest: true,
            payload_len: 0,
        }
    } else {
        ControlInfo {
            reach: TransportReach::Complete,
            packet_len: sized,
            has_rest: has_rest,
            payload_len: low16(
                announced_rest(
                    sized,
                    frame.len() as int,
                    if has_rest {
                        rem - 12
                    } else {
                        rem - 8
                    },
                ),
            ),
        }
    }
}

/// Decodes the ICMP header of an IPv4 packet.
pub fn decode_control(frame: &[u8], l23: usize, packet_len: usize, rem: usize) -> (r: ControlInfo)
    requires
        rem + 34 + l23 == frame@.len(),
        frame@.len() <= isize::MAX,
        packet_len <= frame@.len() + 0x1_0100,
    ensures
        r == control_of(frame@, l23 as int, packet_len, rem),
{
    let sized = max_usize(packet_len, 42 + l23);
    if rem < 8 {
        return ControlInfo {
            reach: TransportReach::HeaderCut,
            packet_len: sized,
            has_rest: false,
            payload_len: 0,
        };
    }
    let mut left = rem - 8;
    let t = outside::control_type(frame[FIELD_OFFSET_CONTROL_TYPE + l23]);
    let has_rest = t == outside::control_type_destination_unreachable() || t
        == outside::control_type_source_quench() || t == outside::control_type_redirect() || t
        == outside::control_type_parameter_problem();
    if has_rest {
        if left < FIELD_LEN_CONTROL_REST {
            return ControlInfo {
                reach: TransportReach::OptionsCut,
                packet_len: sized,
                has_rest: true,
                payload_len: 0,
            };
        }
        left = left - FIELD_LEN_CONTROL_REST;
    }
    ControlInfo {
        reach: TransportReach::Complete,
        packet_len: sized,
        has_rest,
        payload_len: low16_of(sat_sub_of(sized, frame.len() - left)),
    }
}

/// What the UDP header of a packet holds.
pub struct UdpInfo {
    pub reach: TransportReach,
    pub packet_len: usize,
    pub l4_payload_len: usize,
    pub payload_len: u16,
}

/// The UDP header of a frame of `frame_len` bytes behind `l23` bytes of tags
/// and options.
pub open spec fn udp_of(frame_len: int, l23: int, packet_len: usize, rem: usize) -> UdpInfo {
    let sized = max_of(packet_len as int, 42 + l23) as usize;
    if rem < 8 {
        UdpInfo {
            reach: TransportReach::HeaderCut,
            packet_len: sized,
            l4_payload_len: 0,
            payload_len: 0,
        }
    } else {
        UdpInfo {
            reach: TransportReach::Complete,
            packet_len: sized,
            l4_payload_len: announced_rest(sized, frame_len, rem - 8) as usize,
            payload_len: low16(announced_rest(sized, frame_len, rem - 8)),
        }
    }
}

/// Decodes the UDP header of a packet.
pub fn decode_udp(frame: &[u8], l23: usize, packet_len: usize, rem: usize) -> (r: UdpInfo)
    requires
        rem + 34 + l23 == frame@.len(),
        frame@.len() <= isize::MAX,
        packet_len <= frame@.len() + 0x1_0100,
    ensures
        r == udp_of(frame@.len() as int, l23 as int, packet_len, rem),
        r.packet_len <= frame@.len() + 0x1_0100,
{
    let sized = max_usize(packet_len, 42 + l23);
    if rem < 8 {
        return UdpInfo {
            reach: TransportReach::HeaderCut,
            packet_len: sized,
            l4_payload_len: 0,
            payload_len: 0,
        };
    }
    let l4 = sat_sub_of(sized, frame.len() - (rem - 8));
    UdpInfo {
        reach: TransportReach::Complete,
        packet_len: sized,
        l4_payload_len: l4,
        payload_len: low16_of(l4),
    }
}

/// What the fixed part of the TCP header of a packet holds.
pub struct TcpInfo {
    pub reach: TransportReach,
    pub packet_len: usize,
    pub data_offset: u8,
    /// The size of the options that the data offset announces; an offset of
    /// less than a header's size announces none.
    pub l4_opt_size: usize,
    pub l4_payload_len: usize,
    pub payload_len: u16,
    pub win_size: u16,
    pub flags: TcpFlags,
    pub seq: u32,
    pub ack: u32,
}

/// The TCP header of `frame` behind `l23` bytes of tags and options.
pub open spec fn tcp_of(frame: Seq<u8>, l23: int, packet_len: usize, rem: usize) -> TcpInfo {
    let sized = max_of(packet_len as int, 54 + l23) as usize;
    let data_offset = frame[FIELD_OFFSET_TCP_DATAOFF + l23] >> 4;
    let opt: int = if data_offset * 4 > 20 {
        data_offset * 4 - 20
    } else {
        0
    };
    let cut = TcpInfo {
        reach: TransportReach::HeaderCut,
        packet_len: sized,
        data_offset: 0,
        l4_opt_size: 0,
        l4_payload_len: 0,
        payload_len: 0,
        win_size: 0,
        flags: TcpFlags { bits: 0 },
        seq: 0,
        ack: 0,
    };
    if rem < 20 {
        cut
    } else if rem - 20 < opt {
        TcpInfo {
            reach: TransportReach::OptionsCut,
            data_offset: data_offset,
            l4_opt_size: opt as usize,
            ..cut
        }
    } else {
        TcpInfo {
            reach: TransportReach::Complete,
            packet_len: sized,
            data_offset: data_offset,
            l4_opt_size: opt as usize,
            l4_payload_len: announced_rest(sized, frame.len() as int, rem - 20 - opt) as usize,
            payload_len: low16(announced_rest(sized, frame.len() as int, rem - 20 - opt)),
            win_size: be16(frame, FIELD_OFFSET_TCP_WIN + l23),
            flags: TcpFlags { bits: frame[FIELD_OFFSET_TCP_FLAG + l23] & TCP_MASK },
            seq: be32(frame, FIELD_OFFSET_TCP_SEQ + l23),
            ack: be32(frame, FIELD_OFFSET_TCP_ACK + l23),
        }
    }
}

/// Decodes the fixed part of the TCP header of a packet.
pub fn decode_tcp(frame: &[u8], l23: usize, packet_len: usize, rem: usize) -> (r: TcpInfo)
    requires
        rem + 34 + l23 == frame@.len(),
        frame@.len() <= isize::MAX,
        packet_len <= frame@.len() + 0x1_0100,
    ensures
        r == tcp_of(frame@, l23 as int, packet_len, rem),
        r.packet_len <= frame@.len() + 0x1_0100,
        r.reach is Complete ==> 54 + l23 + r.l4_opt_size <= frame@.len(),
{
    let sized = max_usize(packet_len, 54 + l23);
    let cut = TcpInfo {
        reach: TransportReach::HeaderCut,
        packet_len: sized,
        data_offset: 0,
        l4_opt_size: 0,
        l4_payload_len: 0,
        payload_len: 0,
        win_size: 0,
        flags: TcpFlags { bits: 0 },
        seq: 0,
        ack: 0,
    };
    if rem < 20 {
        return cut;
    }
    let offset_byte = frame[FIELD_OFFSET_TCP_DATAOFF + l23];
    let data_offset = offset_byte >> 4;
    assert(data_offset <= 15) by (bit_vector)
        requires
            data_offset == offset_byte >> 4,
    ;
    let l4_opt_size: usize = if data_offset as usize * 4 > 20 {
        data_offset as usize * 4 - 20
    } else {
        0
    };
    if rem - 20 < l4_opt_size {
        return TcpInfo { reach: TransportReach::OptionsCut, data_offset, l4_opt_size, ..cut };
    }
    let l4 = sat_sub_of(sized, frame.len() - (rem - 20 - l4_opt_size));
    TcpInfo {
        reach: TransportReach::Complete,
        packet_len: sized,
        data_offset,
        l4_opt_size,
        l4_payload_len: l4,
        payload_len: low16_of(l4),
        win_size: read_u16_be(frame, FIELD_OFFSET_TCP_WIN + l23),
        flags: TcpFlags::from_bits_truncate(frame[FIELD_OFFSET_TCP_FLAG + l23]),
        seq: read_u32_be(frame, FIELD_OFFSET_TCP_SEQ + l23),
        ack: read_u32_be(frame, FIELD_OFFSET_TCP_ACK + l23),
    }
}

impl<'a> MetaPacket<'a> {
    /// Whether two packets are equal but for the bytes kept of a SACK option.
    pub open spec fn same_but_sack(self, other: MetaPacket<'a>) -> bool {
        self == (MetaPacket {
            tcp_data: MetaPacketTcpHeader { sack: self.tcp_data.sack, ..other.tcp_data },
            ..other
        })
    }

    /// The packet after the decoder has seen the link layer of `frame`: the
    /// capture time, the frame and the endpoints in any case, the innermost
    /// VLAN id where a tag was read, and the addresses and the EtherType where
    /// the link layer is complete.
    #[verifier::opaque]
    pub open spec fn after_link(self, frame: &'a [u8], src_ep: bool, dst_ep: bool, ts: u64) -> MetaPacket<'a> {
        let link = link_of(frame@);
        let seen = MetaPacket {
            lookup_key: LookupKey { timestamp: ts, l2_end_0: src_ep, l2_end_1: dst_ep, ..self.lookup_key },
            raw: Some(frame),
            packet_len: frame@.len() as usize,
            vlan: match link.vlan {
                Some(v) => v,
                None => self.vlan,
            },
            ..self
        };
        if link.outcome is Accepted {
            MetaPacket {
                lookup_key: LookupKey {
                    eth_type: link.eth_type,
                    src_mac: MacAddr::spec_from_slice(frame@, 6),
                    dst_mac: MacAddr::spec_from_slice(frame@, 0),
                    ..seen.lookup_key
                },
                header_type: HeaderType::Eth,
                vlan_tag_size: link.vlan_tag_size,
                offset_mac_0: if dst_ep {
                    self.offset_mac_1
                } else {
                    self.offset_mac_0
                },
                offset_mac_1: if dst_ep {
                    self.offset_mac_0
                } else {
                    self.offset_mac_1
                },
                ..seen
            }
        } else {
            seen
        }
    }

    /// The packet after an ARP message behind the link layer.
    #[verifier::opaque]
    pub open spec fn after_arp(self, frame: Seq<u8>, dst_ep: bool) -> MetaPacket<'a> {
        let vlan = self.vlan_tag_size as int;
        if frame.len() - 14 - vlan < 28 {
            self
        } else {
            let spa = (ARP_SPA_OFFSET + vlan) as usize;
            let tpa = (ARP_TPA_OFFSET + vlan) as usize;
            MetaPacket {
                header_type: HeaderType::Arp,
                lookup_key: LookupKey {
                    src_ip: IpAddr::spec_v4_from_slice(frame, spa as int),
                    dst_ip: IpAddr::spec_v4_from_slice(frame, tpa as int),
                    ..self.lookup_key
                },
                nd_reply_or_arp_request: be16(frame, vlan + ARP_OP_OFFSET) == ARP_OP_REQUEST,
                offset_ip_0: if dst_ep {
                    tpa
                } else {
                    spa
                },
                offset_ip_1: if dst_ep {
                    spa
                } else {
                    tpa
                },
                ..self
            }
        }
    }

    /// The packet after an IPv6 header behind the link layer, and how many bytes
    /// are left for layer 4 if the decoder goes on.
    #[verifier::opaque]
    pub open spec fn after_ipv6(self, frame: Seq<u8>, dst_ep: bool) -> (MetaPacket<'a>, Option<usize>) {
        let vlan = self.vlan_tag_size as int;
        let info = ipv6_of(
            frame,
            vlan,
            self.offset_ipv6_last_option,
            self.offset_ipv6_fragment_option,
        );
        let o0 = (FIELD_OFFSET_IPV6_SRC + vlan) as usize;
        let o1 = (FIELD_OFFSET_IPV6_DST + vlan) as usize;
        let base = MetaPacket {
            header_type: HeaderType::Ipv6,
            offset_ip_0: if dst_ep {
                o1
            } else {
                o0
            },
            offset_ip_1: if dst_ep {
                o0
            } else {
                o1
            },
            lookup_key: LookupKey { src_ip: info.src_ip, dst_ip: info.dst_ip, ..self.lookup_key },
            ttl: info.ttl,
            l2_l3_opt_size: (IPV6_HEADER_ADJUST + vlan) as usize,
            data_offset_ihl_or_fl4b: self.data_offset_ihl_or_fl4b | info.low_bits,
            next_header: info.first_next_header,
            offset_ipv6_last_option: info.options.last_option,
            offset_ipv6_fragment_option: info.options.fragment_option,
            ..self
        };
        let with = MetaPacket {
            l2_l3_opt_size: (IPV6_HEADER_ADJUST + vlan + info.options_length) as usize,
            packet_len: info.packet_len,
            lookup_key: LookupKey { proto: info.protocol, ..base.lookup_key },
            ..base
        };
        match info.reach {
            NetworkReach::HeaderCut => (self, None),
            NetworkReach::UnknownProtocol => (base, None),
            NetworkReach::Complete => (
                MetaPacket { l3_payload_len: info.rest, ..with },
                Some(info.rest),
            ),
            _ => (with, None),
        }
    }

    /// The packet after an IPv4 header behind the link layer, and how many bytes
    /// are left for layer 4 if the decoder goes on. The layer 4 of a fragment is
    /// left alone.
    #[verifier::opaque]
    pub open spec fn after_ipv4(self, frame: Seq<u8>, dst_ep: bool) -> (MetaPacket<'a>, Option<usize>) {
        let vlan = self.vlan_tag_size as int;
        let info = ipv4_of(frame, vlan);
        let o0 = (self.offset_ip_0 + vlan) as usize;
        let o1 = (self.offset_ip_1 + vlan) as usize;
        let base = MetaPacket {
            header_type: HeaderType::Ipv4,
            data_offset_ihl_or_fl4b: info.ihl,
            offset_ip_0: if dst_ep {
                o1
            } else {
                o0
            },
            offset_ip_1: if dst_ep {
                o0
            } else {
                o1
            },
            lookup_key: LookupKey { src_ip: info.src_ip, dst_ip: info.dst_ip, ..self.lookup_key },
            ttl: info.ttl,
            packet_len: info.packet_len,
            ..self
        };
        let sized = MetaPacket {
            l2_l3_opt_size: (vlan + info.l3_opt_size) as usize,
            l3_payload_len: info.l3_payload_len,
            ..base
        };
        let with = MetaPacket {
            lookup_key: LookupKey { proto: info.protocol, ..sized.lookup_key },
            ..sized
        };
        match info.reach {
            NetworkReach::HeaderCut => (self, None),
            NetworkReach::OptionsCut => (MetaPacket { npb_ignore_l4: true, ..base }, None),
            NetworkReach::UnknownProtocol => (sized, None),
            NetworkReach::Fragment => (
                MetaPacket { npb_ignore_l4: true, l4_payload_len: info.l3_payload_len, ..with },
                None,
            ),
            NetworkReach::Complete => (with, Some(info.rest)),
        }
    }

    /// The packet after layer 3, and how many bytes are left for layer 4 if the
    /// decoder goes on.
    pub open spec fn after_network(self, frame: Seq<u8>, dst_ep: bool) -> (MetaPacket<'a>, Option<usize>) {
        match self.lookup_key.eth_type {
            EthernetType::Arp => (self.after_arp(frame, dst_ep), None),
            EthernetType::Ipv6 => self.after_ipv6(frame, dst_ep),
            EthernetType::Ipv4 => self.after_ipv4(frame, dst_ep),
            _ => (self, None),
        }
    }

    /// The packet after an ICMP header for IPv4 with `rem` bytes left. The
    /// header type becomes that of ICMP behind IPv4; behind IPv6, where this
    /// protocol has no place, it stays that of IPv6.
    #[verifier::opaque]
    pub open spec fn after_control(self, frame: Seq<u8>, rem: usize) -> MetaPacket<'a> {
        let info = control_of(frame, self.l2_l3_opt_size as int, self.packet_len, rem);
        match info.reach {
            TransportReach::HeaderCut => MetaPacket { packet_len: info.packet_len, ..self },
            TransportReach::OptionsCut => MetaPacket {
                packet_len: info.packet_len,
                l4_opt_size: 0,
                ..self
            },
            TransportReach::Complete => MetaPacket {
                packet_len: info.packet_len,
                l4_opt_size: if info.has_rest {
                    FIELD_LEN_CONTROL_REST
                } else {
                    self.l4_opt_size
                },
                payload_len: info.payload_len,
                header_type: if self.header_type == HeaderType::Ipv6 {
                    HeaderType::Ipv6
                } else {
                    HeaderType::Ipv4ControlMessage
                },
                ..self
            },
        }
    }

    /// The header type of a transport header of kind `tcp` behind this packet's
    /// layer 3.
    pub open spec fn transport_header_type(self, tcp: bool) -> HeaderType {
        if self.header_type == HeaderType::Ipv6 {
            if tcp {
                HeaderType::Ipv6Tcp
            } else {
                HeaderType::Ipv6Udp
            }
        } else {
            if tcp {
                HeaderType::Ipv4Tcp
            } else {
                HeaderType::Ipv4Udp
            }
        }
    }

    /// The packet after a UDP header with `rem` bytes left, and whether the
    /// header is all there.
    #[verifier::opaque]
    pub open spec fn after_udp(self, frame: Seq<u8>, rem: usize) -> (MetaPacket<'a>, bool) {
        let info = udp_of(frame.len() as int, self.l2_l3_opt_size as int, self.packet_len, rem);
        match info.reach {
            TransportReach::Complete => (
                MetaPacket {
                    packet_len: info.packet_len,
                    l4_payload_len: info.l4_payload_len,
                    payload_len: info.payload_len,
                    header_type: self.transport_header_type(false),
                    ..self
                },
                true,
            ),
            _ => (MetaPacket { packet_len: info.packet_len, ..self }, false),
        }
    }

    /// What the packet holds of TCP options.
    pub open spec fn tcp_options_held(self) -> TcpOptions {
        TcpOptions {
            flag: self.tcp_options_flag,
            mss_offset: self.tcp_opt_mss_offset,
            win_scale_offset: self.tcp_opt_win_scale_offset,
            sack_offset: self.tcp_opt_sack_offset,
            mss: self.tcp_data.mss,
            win_scale: self.tcp_data.win_scale,
            sack_permitted: self.tcp_data.sack_permitted,
            sack: sack_view(self.tcp_data.sack),
        }
    }

    /// Whether the decoder reads the TCP header of `frame` to its end and walks
    /// its options: the header and the options it announces are within the
    /// frame, and the data offset is more than the five words of a bare header.
    pub open spec fn walks_tcp_options(self, frame: Seq<u8>, rem: usize) -> bool {
        let info = tcp_of(frame, self.l2_l3_opt_size as int, self.packet_len, rem);
        info.reach is Complete && info.data_offset > 5
    }

    /// What the options of the TCP header of `frame` hold, begun with what the
    /// packet held before.
    pub open spec fn tcp_options_found(self, frame: Seq<u8>, rem: usize) -> TcpOptions {
        let l23 = self.l2_l3_opt_size as int;
        let info = tcp_of(frame, l23, self.packet_len, rem);
        tcp_opt_walk(frame, 54 + l23, 54 + l23 + info.l4_opt_size, self.tcp_options_held())
    }

    /// The packet after a TCP header with `rem` bytes left, all but the bytes
    /// kept of a SACK option, and whether the header is all there. The options
    /// are walked only where the data offset is more than five words.
    #[verifier::opaque]
    pub open spec fn after_tcp(self, frame: Seq<u8>, rem: usize) -> (MetaPacket<'a>, bool) {
        let info = tcp_of(frame, self.l2_l3_opt_size as int, self.packet_len, rem);
        let w = if info.data_offset > 5 {
            self.tcp_options_found(frame, rem)
        } else {
            self.tcp_options_held()
        };
        match info.reach {
            TransportReach::HeaderCut => (
                MetaPacket { packet_len: info.packet_len, npb_ignore_l4: true, ..self },
                false,
            ),
            TransportReach::OptionsCut => (
                MetaPacket {
                    packet_len: info.packet_len,
                    npb_ignore_l4: true,
                    data_offset_ihl_or_fl4b: self.data_offset_ihl_or_fl4b | (info.data_offset << 4),
                    l4_opt_size: info.l4_opt_size,
                    ..self
                },
                false,
            ),
            TransportReach::Complete => (
                MetaPacket {
                    packet_len: info.packet_len,
                    data_offset_ihl_or_fl4b: self.data_offset_ihl_or_fl4b | (info.data_offset << 4),
                    l4_opt_size: info.l4_opt_size,
                    l4_payload_len: info.l4_payload_len,
                    payload_len: info.payload_len,
                    header_type: self.transport_header_type(true),
                    tcp_options_flag: w.flag,
                    tcp_opt_mss_offset: w.mss_offset,
                    tcp_opt_win_scale_offset: w.win_scale_offset,
                    tcp_opt_sack_offset: w.sack_offset,
                    tcp_data: MetaPacketTcpHeader {
                        data_offset: info.data_offset,
                        win_size: info.win_size,
                        flags: info.flags,
                        seq: info.seq,
                        ack: info.ack,
                        mss: w.mss,
                        win_scale: w.win_scale,
                        sack_permitted: w.sack_permitted,
                        sack: self.tcp_data.sack,
                    },
                    ..self
                },
                true,
            ),
        }
    }

    /// The packet after an ICMPv6 header with `rem` bytes left. A neighbour
    /// advertisement from an address that is not link-local stands for a reply.
    #[verifier::opaque]
    pub open spec fn after_control_v6(self, frame: Seq<u8>, rem: usize) -> MetaPacket<'a> {
        let l23 = self.l2_l3_opt_size as int;
        MetaPacket {
            nd_reply_or_arp_request: if rem > 0 && self.lookup_key.src_ip is V6 {
                frame[FIELD_OFFSET_CONTROL_TYPE + l23] == 136
                    && !self.lookup_key.src_ip.spec_is_link_local()
            } else {
                self.nd_reply_or_arp_request
            },
            payload_len: low16(announced_rest(self.packet_len, frame.len() as int, rem as int)),
            ..self
        }
    }

    /// The packet after a header of a protocol that the decoder does not look
    /// into.
    #[verifier::opaque]
    pub open spec fn after_other(self, frame: Seq<u8>, rem: usize) -> MetaPacket<'a> {
        MetaPacket {
            payload_len: low16(announced_rest(self.packet_len, frame.len() as int, rem as int)),
            ..self
        }
    }

    /// The packet after layer 4 with `rem` bytes left behind layer 3, all but
    /// the bytes kept of a SACK option, and whether the ports are read next.
    pub open spec fn after_transport(self, frame: Seq<u8>, rem: usize) -> (MetaPacket<'a>, bool) {
        match self.lookup_key.proto {
            IpProtocol::ControlMessage => (self.after_control(frame, rem), false),
            IpProtocol::Udp => self.after_udp(frame, rem),
            IpProtocol::Tcp => self.after_tcp(frame, rem),
            IpProtocol::ControlMessageV6 => (self.after_control_v6(frame, rem), false),
            _ => (self.after_other(frame, rem), false),
        }
    }

    /// The bytes kept of a SACK option after layer 4.
    pub open spec fn sack_after_transport(self, frame: Seq<u8>, rem: usize) -> Option<Seq<u8>> {
        if self.lookup_key.proto == IpProtocol::Tcp && self.walks_tcp_options(frame, rem) {
            self.tcp_options_found(frame, rem).sack
        } else {
            sack_view(self.tcp_data.sack)
        }
    }

    /// The packet after the ports are read. A length on the wire that is more
    /// than 16 bytes above the computed length replaces it: the frame is several
    /// segments that the hardware has joined.
    #[verifier::opaque]
    pub open spec fn after_ports(self, frame: Seq<u8>, dst_ep: bool, wire_len: usize) -> MetaPacket<'a> {
        let p0 = (self.offset_port_0 + self.l2_l3_opt_size) as usize;
        let p1 = (self.offset_port_1 + self.l2_l3_opt_size) as usize;
        MetaPacket {
            offset_port_0: if dst_ep {
                p1
            } else {
                p0
            },
            offset_port_1: if dst_ep {
                p0
            } else {
                p1
            },
            lookup_key: LookupKey {
                src_port: be16(frame, p0 as int),
                dst_port: be16(frame, p1 as int),
                ..self.lookup_key
            },
            packet_len: if self.packet_len + PACKET_MAX_PADDING < wire_len {
                wire_len
            } else {
                self.packet_len
            },
            ..self
        }
    }

    /// The packet after the decoder has run over `frame`, all but the bytes
    /// kept of a SACK option.
    pub open spec fn decoded(
        self,
        frame: &'a [u8],
        src_ep: bool,
        dst_ep: bool,
        ts: u64,
        wire_len: usize,
    ) -> MetaPacket<'a> {
        let linked = self.after_link(frame, src_ep, dst_ep, ts);
        if !(link_of(frame@).outcome is Accepted) {
            linked
        } else {
            let (net, next) = linked.after_network(frame@, dst_ep);
            match next {
                None => net,
                Some(rem) => {
                    let (transport, ports) = net.after_transport(frame@, rem);
                    if ports {
                        transport.after_ports(frame@, dst_ep, wire_len)
                    } else {
                        transport
                    }
                },
            }
        }
    }

    /// The bytes kept of a SACK option after the decoder has run over `frame`.
    pub open spec fn decoded_sack(
        self,
        frame: &'a [u8],
        src_ep: bool,
        dst_ep: bool,
        ts: u64,
    ) -> Option<Seq<u8>> {
        let linked = self.after_link(frame, src_ep, dst_ep, ts);
        if !(link_of(frame@).outcome is Accepted) {
            sack_view(self.tcp_data.sack)
        } else {
            let (net, next) = linked.after_network(frame@, dst_ep);
            match next {
                None => sack_view(self.tcp_data.sack),
                Some(rem) => net.sack_after_transport(frame@, rem),
            }
        }
    }

    /// Takes the packet out and leaves an empty one in its place.
    fn take(&mut self) -> (r: MetaPacket<'a>)
        ensures
            r == *old(self),
    {
        let mut cur = MetaPacket::new();
        std::mem::swap(self, &mut cur);
        cur
    }

    /// Walks the extension headers of the IPv6 packet in `raw`, which lies
    /// behind `l2_opt_size` bytes of tags. Records the first next-header value
    /// and the offsets of the last extension header and of the last fragment
    /// header, and returns the next-header value behind the extension headers
    /// with their length. Where an extension header runs past the frame, both
    /// offsets are zeroed and the result is the first next-header value and zero.
    pub fn update_ip6_opt(&mut self, l2_opt_size: usize) -> (r: (u8, usize))
        requires
            old(self).raw is Some,
            l2_opt_size <= 8,
            old(self).raw.unwrap()@.len() >= 54 + l2_opt_size,
        ensures
            ({
                let frame = old(self).raw.unwrap()@;
                let walk = ip6_options(
                    frame,
                    l2_opt_size as int,
                    old(self).offset_ipv6_last_option,
                    old(self).offset_ipv6_fragment_option,
                );
                &&& *final(self) == (MetaPacket {
                    next_header: frame[IPV6_PROTO_OFFSET + l2_opt_size],
                    offset_ipv6_last_option: walk.last_option,
                    offset_ipv6_fragment_option: walk.fragment_option,
                    ..*old(self)
                })
                &&& r.0 == walk.next_header
                &&& r.1 == walk.end - (54 + l2_opt_size)
                &&& r.1 + 54 + l2_opt_size <= frame.len()
            }),
    {
        let packet = self.raw.unwrap();
        let walk = walk_ip6_options(
            packet,
            l2_opt_size,
            self.offset_ipv6_last_option,
            self.offset_ipv6_fragment_option,
        );
        let first = packet[IPV6_PROTO_OFFSET + l2_opt_size];
        let cur = self.take();
        *self = MetaPacket {
            next_header: first,
            offset_ipv6_last_option: walk.last_option,
            offset_ipv6_fragment_option: walk.fragment_option,
            ..cur
        };
        (walk.next_header, walk.end - (54 + l2_opt_size))
    }

    /// Decodes the link layer of `frame` into the packet.
    fn update_link(&mut self, frame: &'a [u8], src_ep: bool, dst_ep: bool, ts: u64) -> (link: Link)
        ensures
            link == link_of(frame@),
            *final(self) == old(self).after_link(frame, src_ep, dst_ep, ts),
            link.outcome is Accepted ==> frame@.len() >= 14 + link.vlan_tag_size
                && link.vlan_tag_size <= 8 && final(self).vlan_tag_size == link.vlan_tag_size
                && final(self).lookup_key.eth_type == link.eth_type,
            final(self).offset_ip_0 == old(self).offset_ip_0,
            final(self).offset_ip_1 == old(self).offset_ip_1,
            final(self).offset_port_0 == old(self).offset_port_0,
            final(self).offset_port_1 == old(self).offset_port_1,
            final(self).tcp_data.sack == old(self).tcp_data.sack,
    {
        reveal(MetaPacket::after_link);
        let link = decode_link(frame);
        let cur = self.take();
        let vlan = match link.vlan {
            Some(v) => v,
            None => cur.vlan,
        };
        match link.outcome {
            LinkOutcome::Accepted => {
                *self = MetaPacket {
                    lookup_key: LookupKey {
                        timestamp: ts,
                        l2_end_0: src_ep,
                        l2_end_1: dst_ep,
                        eth_type: link.eth_type,
                        src_mac: MacAddr::from_slice(frame, FIELD_OFFSET_SA),
                        dst_mac: MacAddr::from_slice(frame, FIELD_OFFSET_DA),
                        ..cur.lookup_key
                    },
                    raw: Some(frame),
                    packet_len: frame.len(),
                    vlan,
                    header_type: HeaderType::Eth,
                    vlan_tag_size: link.vlan_tag_size,
                    offset_mac_0: if dst_ep {
                        cur.offset_mac_1
                    } else {
                        cur.offset_mac_0
                    },
                    offset_mac_1: if dst_ep {
                        cur.offset_mac_0
                    } else {
                        cur.offset_mac_1
                    },
                    ..cur
                };
            },
            _ => {
                *self = MetaPacket {
                    lookup_key: LookupKey {
                        timestamp: ts,
                        l2_end_0: src_ep,
                        l2_end_1: dst_ep,
                        ..cur.lookup_key
                    },
                    raw: Some(frame),
                    packet_len: frame.len(),
                    vlan,
                    ..cur
                };
            },
        }
        link
    }

    /// Decodes an ARP message behind the link layer.
    fn update_arp(&mut self, frame: &[u8], dst_ep: bool)
        requires
            old(self).vlan_tag_size <= 8,
            frame@.len() >= 14 + old(self).vlan_tag_size,
        ensures
            *final(self) == old(self).after_arp(frame@, dst_ep),
            final(self).tcp_data.sack == old(self).tcp_data.sack,
            final(self).offset_port_0 == old(self).offset_port_0,
            final(self).offset_port_1 == old(self).offset_port_1,
    {
        reveal(MetaPacket::after_arp);
        let vlan = self.vlan_tag_size;
        if frame.len() - 14 - vlan < 28 {
            return ;
        }
        let spa_offset = ARP_SPA_OFFSET + vlan;
        let tpa_offset = ARP_TPA_OFFSET + vlan;
        let cur = self.take();
        *self = MetaPacket {
            header_type: HeaderType::Arp,
            lookup_key: LookupKey {
                src_ip: IpAddr::v4_from_slice(frame, spa_offset),
                dst_ip: IpAddr::v4_from_slice(frame, tpa_offset),
                ..cur.lookup_key
            },
            nd_reply_or_arp_request: read_u16_be(frame, vlan + ARP_OP_OFFSET) == ARP_OP_REQUEST,
            offset_ip_0: if dst_ep {
                tpa_offset
            } else {
                spa_offset
            },
            offset_ip_1: if dst_ep {
                spa_offset
            } else {
                tpa_offset
            },
            ..cur
        };
    }

    /// Decodes an IPv6 header behind the link layer.
    fn update_ipv6(&mut self, frame: &[u8], dst_ep: bool) -> (next: Option<usize>)
        requires
            old(self).vlan_tag_size <= 8,
            frame@.len() >= 14 + old(self).vlan_tag_size,
            frame@.len() <= isize::MAX,
        ensures
            (*final(self), next) == old(self).after_ipv6(frame@, dst_ep),
            next matches Some(rem) ==> rem + 34 + final(self).l2_l3_opt_size == frame@.len()
                && final(self).packet_len <= frame@.len() + 0x1_0100,
            final(self).offset_port_0 == old(self).offset_port_0,
            final(self).offset_port_1 == old(self).offset_port_1,
            final(self).tcp_data.sack == old(self).tcp_data.sack,
    {
        reveal(MetaPacket::after_ipv6);
        let vlan = self.vlan_tag_size;
        let info = decode_ipv6(
            frame,
            vlan,
            self.offset_ipv6_last_option,
            self.offset_ipv6_fragment_option,
        );
        if info.reach == NetworkReach::HeaderCut {
            return None;
        }
        let o0 = FIELD_OFFSET_IPV6_SRC + vlan;
        let o1 = FIELD_OFFSET_IPV6_DST + vlan;
        let cur = self.take();
        let low_bits = cur.data_offset_ihl_or_fl4b | info.low_bits;
        match info.reach {
            NetworkReach::UnknownProtocol => {
                *self = MetaPacket {
                    header_type: HeaderType::Ipv6,
                    offset_ip_0: if dst_ep {
                        o1
                    } else {
                        o0
                    },
                    offset_ip_1: if dst_ep {
                        o0
                    } else {
                        o1
                    },
                    lookup_key: LookupKey {
                        src_ip: info.src_ip,
                        dst_ip: info.dst_ip,
                        ..cur.lookup_key
                    },
                    ttl: info.ttl,
                    l2_l3_opt_size: IPV6_HEADER_ADJUST + vlan,
                    data_offset_ihl_or_fl4b: low_bits,
                    next_header: info.first_next_header,
                    offset_ipv6_last_option: info.options.last_option,
                    offset_ipv6_fragment_option: info.options.fragment_option,
                    ..cur
                };
                None
            },
            NetworkReach::Complete => {
                *self = MetaPacket {
                    header_type: HeaderType::Ipv6,
                    offset_ip_0: if dst_ep {
                        o1
                    } else {
                        o0
                    },
                    offset_ip_1: if dst_ep {
                        o0
                    } else {
                        o1
                    },
                    lookup_key: LookupKey {
                        src_ip: info.src_ip,
                        dst_ip: info.dst_ip,
                        proto: info.protocol,
                        ..cur.lookup_key
                    },
                    ttl: info.ttl,
                    l2_l3_opt_size: IPV6_HEADER_ADJUST + vlan + info.options_length,
                    data_offset_ihl_or_fl4b: low_bits,
                    next_header: info.first_next_header,
                    offset_ipv6_last_option: info.options.last_option,
                    offset_ipv6_fragment_option: info.options.fragment_option,
                    packet_len: info.packet_len,
                    l3_payload_len: info.rest,
                    ..cur
                };
                Some(info.rest)
            },
            _ => {
                *self = MetaPacket {
                    header_type: HeaderType::Ipv6,
                    offset_ip_0: if dst_ep {
                        o1
                    } else {
                        o0
                    },
                    offset_ip_1: if dst_ep {
                        o0
                    } else {
                        o1
                    },
                    lookup_key: LookupKey {
                        src_ip: info.src_ip,
                        dst_ip: info.dst_ip,
                        proto: info.protocol,
                        ..cur.lookup_key
                    },
                    ttl: info.ttl,
                    l2_l3_opt_size: IPV6_HEADER_ADJUST + vlan + info.options_length,
                    data_offset_ihl_or_fl4b: low_bits,
                    next_header: info.first_next_header,
                    offset_ipv6_last_option: info.options.last_option,
                    offset_ipv6_fragment_option: info.options.fragment_option,
                    packet_len: info.packet_len,
                    ..cur
                };
                None
            },
        }
    }

    /// Decodes an IPv4 header behind the link layer.
    fn update_ipv4(&mut self, frame: &[u8], dst_ep: bool) -> (next: Option<usize>)
        requires
            old(self).vlan_tag_size <= 8,
            frame@.len() >= 14 + old(self).vlan_tag_size,
            frame@.len() <= isize::MAX,
            old(self).offset_ip_0 == FIELD_OFFSET_SIP,
            old(self).offset_ip_1 == FIELD_OFFSET_DIP,
        ensures
            (*final(self), next) == old(self).after_ipv4(frame@, dst_ep),
            next matches Some(rem) ==> rem + 34 + final(self).l2_l3_opt_size == frame@.len()
                && final(self).packet_len <= frame@.len() + 0x1_0100,
            final(self).offset_port_0 == old(self).offset_port_0,
            final(self).offset_port_1 == old(self).offset_port_1,
            final(self).tcp_data.sack == old(self).tcp_data.sack,
    {
        reveal(MetaPacket::after_ipv4);
        let vlan = self.vlan_tag_size;
        let info = decode_ipv4(frame, vlan);
        if info.reach == NetworkReach::HeaderCut {
            return None;
        }
        let o0 = self.offset_ip_0 + vlan;
        let o1 = self.offset_ip_1 + vlan;
        let cur = self.take();
        match info.reach {
            NetworkReach::OptionsCut => {
                *self = MetaPacket {
                    header_type: HeaderType::Ipv4,
                    data_offset_ihl_or_fl4b: info.ihl,
                    offset_ip_0: if dst_ep {
                        o1
                    } else {
                        o0
                    },
                    offset_ip_1: if dst_ep {
                        o0
                    } else {
                        o1
                    },
                    lookup_key: LookupKey {
                        src_ip: info.src_ip,
                        dst_ip: info.dst_ip,
                        ..cur.lookup_key
                    },
                    ttl: info.ttl,
                    packet_len: info.packet_len,
                    npb_ignore_l4: true,
                    ..cur
                };
                None
            },
            NetworkReach::UnknownProtocol => {
                *self = MetaPacket {
                    header_type: HeaderType::Ipv4,
                    data_offset_ihl_or_fl4b: info.ihl,
                    offset_ip_0: if dst_ep {
                        o1
                    } else {
                        o0
                    },
                    offset_ip_1: if dst_ep {
                        o0
                    } else {
                        o1
                    },
                    lookup_key: LookupKey {
                        src_ip: info.src_ip,
                        dst_ip: info.dst_ip,
                        ..cur.lookup_key
                    },
                    ttl: info.ttl,
                    packet_len: info.packet_len,
                    l2_l3_opt_size: vlan + info.l3_opt_size,
                    l3_payload_len: info.l3_payload_len,
                    ..cur
                };
                None
            },
            NetworkReach::Fragment => {
                *self = MetaPacket {
                    header_type: HeaderType::Ipv4,
                    data_offset_ihl_or_fl4b: info.ihl,
                    offset_ip_0: if dst_ep {
                        o1
                    } else {
                        o0
                    },
                    offset_ip_1: if dst_ep {
                        o0
                    } else {
                        o1
                    },
                    lookup_key: LookupKey {
                        src_ip: info.src_ip,
                        dst_ip: info.dst_ip,
                        proto: info.protocol,
                        ..cur.lookup_key
                    },
                    ttl: info.ttl,
                    packet_len: info.packet_len,
                    l2_l3_opt_size: vlan + info.l3_opt_size,
                    l3_payload_len: info.l3_payload_len,
                    npb_ignore_l4: true,
                    l4_payload_len: info.l3_payload_len,
                    ..cur
                };
                None
            },
            _ => {
                *self = MetaPacket {
                    header_type: HeaderType::Ipv4,
                    data_offset_ihl_or_fl4b: info.ihl,
                    offset_ip_0: if dst_ep {
                        o1
                    } else {
                        o0
                    },
                    offset_ip_1: if dst_ep {
                        o0
                    } else {
                        o1
                    },
                    lookup_key: LookupKey {
                        src_ip: info.src_ip,
                        dst_ip: info.dst_ip,
                        proto: info.protocol,
                        ..cur.lookup_key
                    },
                    ttl: info.ttl,
                    packet_len: info.packet_len,
                    l2_l3_opt_size: vlan + info.l3_opt_size,
                    l3_payload_len: info.l3_payload_len,
                    ..cur
                };
                Some(info.rest)
            },
        }
    }

    /// Decodes an ICMP header for IPv4.
    fn update_control(&mut self, frame: &[u8], rem: usize)
        requires
            rem + 34 + old(self).l2_l3_opt_size == frame@.len(),
            frame@.len() <= isize::MAX,
            old(self).packet_len <= frame@.len() + 0x1_0100,
        ensures
            *final(self) == old(self).after_control(frame@, rem),
            final(self).tcp_data.sack == old(self).tcp_data.sack,
            final(self).offset_port_0 == old(self).offset_port_0,
            final(self).offset_port_1 == old(self).offset_port_1,
    {
        reveal(MetaPacket::after_control);
        let info = decode_control(frame, self.l2_l3_opt_size, self.packet_len, rem);
        let cur = self.take();
        match info.reach {
            TransportReach::HeaderCut => {
                *self = MetaPacket { packet_len: info.packet_len, ..cur };
            },
            TransportReach::OptionsCut => {
                *self = MetaPacket { packet_len: info.packet_len, l4_opt_size: 0, ..cur };
            },
            TransportReach::Complete => {
                *self = MetaPacket {
                    packet_len: info.packet_len,
                    l4_opt_size: if info.has_rest {
                        FIELD_LEN_CONTROL_REST
                    } else {
                        cur.l4_opt_size
                    },
                    payload_len: info.payload_len,
                    header_type: match cur.header_type {
                        HeaderType::Ipv6 => HeaderType::Ipv6,
                        _ => HeaderType::Ipv4ControlMessage,
                    },
                    ..cur
                };
            },
        }
    }

    /// Decodes a UDP header.
    fn update_udp(&mut self, frame: &[u8], rem: usize) -> (ports: bool)
        requires
            rem + 34 + old(self).l2_l3_opt_size == frame@.len(),
            frame@.len() <= isize::MAX,
            old(self).packet_len <= frame@.len() + 0x1_0100,
        ensures
            (*final(self), ports) == old(self).after_udp(frame@, rem),
            ports ==> rem >= 8,
            final(self).packet_len <= frame@.len() + 0x1_0100,
            final(self).l2_l3_opt_size == old(self).l2_l3_opt_size,
            final(self).offset_port_0 == old(self).offset_port_0,
            final(self).offset_port_1 == old(self).offset_port_1,
            final(self).tcp_data.sack == old(self).tcp_data.sack,
    {
        reveal(MetaPacket::after_udp);
        let info = decode_udp(frame, self.l2_l3_opt_size, self.packet_len, rem);
        let cur = self.take();
        match info.reach {
            TransportReach::Complete => {
                *self = MetaPacket {
                    packet_len: info.packet_len,
                    l4_payload_len: info.l4_payload_len,
                    payload_len: info.payload_len,
                    header_type: if cur.header_type == HeaderType::Ipv6 {
                        HeaderType::Ipv6Udp
                    } else {
                        HeaderType::Ipv4Udp
                    },
                    ..cur
                };
                true
            },
            _ => {
                *self = MetaPacket { packet_len: info.packet_len, ..cur };
                false
            },
        }
    }

    /// Decodes a TCP header and its options.
    fn update_tcp(&mut self, frame: &[u8], rem: usize) -> (ports: bool)
        requires
            rem + 34 + old(self).l2_l3_opt_size == frame@.len(),
            frame@.len() <= isize::MAX,
            old(self).packet_len <= frame@.len() + 0x1_0100,
        ensures
            final(self).same_but_sack(old(self).after_tcp(frame@, rem).0),
            ports == old(self).after_tcp(frame@, rem).1,
            sack_view(final(self).tcp_data.sack) == if old(self).walks_tcp_options(frame@, rem) {
                old(self).tcp_options_found(frame@, rem).sack
            } else {
                sack_view(old(self).tcp_data.sack)
            },
            ports ==> rem >= 8,
            final(self).packet_len <= frame@.len() + 0x1_0100,
            final(self).l2_l3_opt_size == old(self).l2_l3_opt_size,
            final(self).offset_port_0 == old(self).offset_port_0,
            final(self).offset_port_1 == old(self).offset_port_1,
    {
        reveal(MetaPacket::after_tcp);
        let l23 = self.l2_l3_opt_size;
        let info = decode_tcp(frame, l23, self.packet_len, rem);
        let cur = self.take();
        match info.reach {
            TransportReach::HeaderCut => {
                *self = MetaPacket { packet_len: info.packet_len, npb_ignore_l4: true, ..cur };
                false
            },
            TransportReach::OptionsCut => {
                *self = MetaPacket {
                    packet_len: info.packet_len,
                    npb_ignore_l4: true,
                    data_offset_ihl_or_fl4b: cur.data_offset_ihl_or_fl4b | (info.data_offset << 4),
                    l4_opt_size: info.l4_opt_size,
                    ..cur
                };
                false
            },
            TransportReach::Complete => {
                let held = TcpOptionState {
                    flag: cur.tcp_options_flag,
                    mss_offset: cur.tcp_opt_mss_offset,
                    win_scale_offset: cur.tcp_opt_win_scale_offset,
                    sack_offset: cur.tcp_opt_sack_offset,
                    mss: cur.tcp_data.mss,
                    win_scale: cur.tcp_data.win_scale,
                    sack_permitted: cur.tcp_data.sack_permitted,
                    sack: cur.tcp_data.sack,
                };
                let found = if info.data_offset > 5 {
                    walk_tcp_options(frame, 54 + l23, 54 + l23 + info.l4_opt_size, held)
                } else {
                    held
                };
                *self = MetaPacket {
                    packet_len: info.packet_len,
                    data_offset_ihl_or_fl4b: cur.data_offset_ihl_or_fl4b | (info.data_offset << 4),
                    l4_opt_size: info.l4_opt_size,
                    l4_payload_len: info.l4_payload_len,
                    payload_len: info.payload_len,
                    header_type: if cur.header_type == HeaderType::Ipv6 {
                        HeaderType::Ipv6Tcp
                    } else {
                        HeaderType::Ipv4Tcp
                    },
                    tcp_options_flag: found.flag,
                    tcp_opt_mss_offset: found.mss_offset,
                    tcp_opt_win_scale_offset: found.win_scale_offset,
                    tcp_opt_sack_offset: found.sack_offset,
                    tcp_data: MetaPacketTcpHeader {
                        data_offset: info.data_offset,
                        win_size: info.win_size,
                        flags: info.flags,
                        seq: info.seq,
                        ack: info.ack,
                        mss: found.mss,
                        win_scale: found.win_scale,
                        sack_permitted: found.sack_permitted,
                        sack: found.sack,
                    },
                    ..cur
                };
                true
            },
        }
    }

    /// Decodes an ICMPv6 header.
    fn update_control_v6(&mut self, frame: &[u8], rem: usize)
        requires
            rem + 34 + old(self).l2_l3_opt_size == frame@.len(),
            frame@.len() <= isize::MAX,
        ensures
            *final(self) == old(self).after_control_v6(frame@, rem),
            final(self).tcp_data.sack == old(self).tcp_data.sack,
            final(self).offset_port_0 == old(self).offset_port_0,
            final(self).offset_port_1 == old(self).offset_port_1,
    {
        reveal(MetaPacket::after_control_v6);
        let l23 = self.l2_l3_opt_size;
        let mut nd = self.nd_reply_or_arp_request;
        if rem > 0 {
            match self.lookup_key.src_ip {
                IpAddr::V6(_) => {
                    let t = outside::control_v6_type(frame[FIELD_OFFSET_CONTROL_TYPE + l23]);
                    nd = t == outside::control_v6_type_neighbor_advert()
                        && !self.lookup_key.src_ip.is_link_local();
                },
                IpAddr::V4(_) => {},
            }
        }
        let payload_len = low16_of(sat_sub_of(self.packet_len, frame.len() - rem));
        let cur = self.take();
        *self = MetaPacket { nd_reply_or_arp_request: nd, payload_len, ..cur };
    }

    /// Records the length of what follows a header that the decoder does not
    /// look into.
    fn update_other(&mut self, frame: &[u8], rem: usize)
        requires
            rem <= frame@.len(),
        ensures
            *final(self) == old(self).after_other(frame@, rem),
            final(self).tcp_data.sack == old(self).tcp_data.sack,
            final(self).offset_port_0 == old(self).offset_port_0,
            final(self).offset_port_1 == old(self).offset_port_1,
    {
        reveal(MetaPacket::after_other);
        let payload_len = low16_of(sat_sub_of(self.packet_len, frame.len() - rem));
        let cur = self.take();
        *self = MetaPacket { payload_len, ..cur };
    }

    /// Reads the ports behind a complete TCP or UDP header, and settles the
    /// length of the packet against the length on the wire.
    fn update_ports(&mut self, frame: &[u8], dst_ep: bool, wire_len: usize)
        requires
            old(self).offset_port_0 == FIELD_OFFSET_SPORT,
            old(self).offset_port_1 == FIELD_OFFSET_DPORT,
            42 + old(self).l2_l3_opt_size <= frame@.len(),
            frame@.len() <= isize::MAX,
            old(self).packet_len <= frame@.len() + 0x1_0100,
        ensures
            *final(self) == old(self).after_ports(frame@, dst_ep, wire_len),
            final(self).tcp_data.sack == old(self).tcp_data.sack,
    {
        reveal(MetaPacket::after_ports);
        let p0 = self.offset_port_0 + self.l2_l3_opt_size;
        let p1 = self.offset_port_1 + self.l2_l3_opt_size;
        let cur = self.take();
        *self = MetaPacket {
            offset_port_0: if dst_ep {
                p1
            } else {
                p0
            },
            offset_port_1: if dst_ep {
                p0
            } else {
                p1
            },
            lookup_key: LookupKey {
                src_port: read_u16_be(frame, p0),
                dst_port: read_u16_be(frame, p1),
                ..cur.lookup_key
            },
            packet_len: if cur.packet_len + PACKET_MAX_PADDING < wire_len {
                wire_len
            } else {
                cur.packet_len
            },
            ..cur
        };
    }

    /// Decodes layer 3 behind a complete link layer.
    fn update_network(&mut self, frame: &[u8], dst_ep: bool) -> (next: Option<usize>)
        requires
            old(self).vlan_tag_size <= 8,
            frame@.len() >= 14 + old(self).vlan_tag_size,
            frame@.len() <= isize::MAX,
            old(self).offset_ip_0 == FIELD_OFFSET_SIP,
            old(self).offset_ip_1 == FIELD_OFFSET_DIP,
        ensures
            (*final(self), next) == old(self).after_network(frame@, dst_ep),
            next matches Some(rem) ==> rem + 34 + final(self).l2_l3_opt_size == frame@.len()
                && final(self).packet_len <= frame@.len() + 0x1_0100,
            final(self).offset_port_0 == old(self).offset_port_0,
            final(self).offset_port_1 == old(self).offset_port_1,
            final(self).tcp_data.sack == old(self).tcp_data.sack,
    {
        match self.lookup_key.eth_type {
            EthernetType::Arp => {
                self.update_arp(frame, dst_ep);
                None
            },
            EthernetType::Ipv6 => self.update_ipv6(frame, dst_ep),
            EthernetType::Ipv4 => self.update_ipv4(frame, dst_ep),
            _ => None,
        }
    }

    /// Decodes layer 4 behind a complete layer 3 that leaves `rem` bytes.
    fn update_transport(&mut self, frame: &[u8], rem: usize) -> (ports: bool)
        requires
            rem + 34 + old(self).l2_l3_opt_size == frame@.len(),
            frame@.len() <= isize::MAX,
            old(self).packet_len <= frame@.len() + 0x1_0100,
        ensures
            final(self).same_but_sack(old(self).after_transport(frame@, rem).0),
            ports == old(self).after_transport(frame@, rem).1,
            sack_view(final(self).tcp_data.sack) == old(self).sack_after_transport(frame@, rem),
            ports ==> rem >= 8 && final(self).packet_len <= frame@.len() + 0x1_0100
                && final(self).l2_l3_opt_size == old(self).l2_l3_opt_size,
            final(self).offset_port_0 == old(self).offset_port_0,
            final(self).offset_port_1 == old(self).offset_port_1,
    {
        match self.lookup_key.proto {
            IpProtocol::ControlMessage => {
                self.update_control(frame, rem);
                false
            },
            IpProtocol::Udp => self.update_udp(frame, rem),
            IpProtocol::Tcp => self.update_tcp(frame, rem),
            IpProtocol::ControlMessageV6 => {
                self.update_control_v6(frame, rem);
                false
            },
            _ => {
                self.update_other(frame, rem);
                false
            },
        }
    }

    /// Decodes `packet`, a frame captured at `timestamp` that was
    /// `original_length` bytes long on the wire, into this packet.
    /// `src_endpoint` and `dst_endpoint` say whether the capture point is the
    /// sending or the receiving station.
    ///
    /// The packet must be fresh, as `empty` and `reset` leave it. The result is
    /// an error only where the frame has an EtherType that the decoder does not
    /// recognise; a frame that is cut short leaves what was read before the cut.
    pub fn update(
        &mut self,
        packet: &'a [u8],
        src_endpoint: bool,
        dst_endpoint: bool,
        timestamp: u64,
        original_length: usize,
    ) -> (r: Result<(), Error>)
        requires
            old(self).offsets_initial(),
            packet@.len() <= isize::MAX,
        ensures
            final(self).same_but_sack(
                old(self).decoded(packet, src_endpoint, dst_endpoint, timestamp, original_length),
            ),
            sack_view(final(self).tcp_data.sack) == old(self).decoded_sack(
                packet,
                src_endpoint,
                dst_endpoint,
                timestamp,
            ),
            r is Err <==> link_of(packet@).outcome is BadEtherType,
            r matches Err(e) ==> e == Error::ParsePacketFailed,
    {
        let link = self.update_link(packet, src_endpoint, dst_endpoint, timestamp);
        match link.outcome {
            LinkOutcome::Truncated => {
                return Ok(());
            },
            LinkOutcome::BadEtherType => {
                return Err(Error::ParsePacketFailed);
            },
            LinkOutcome::Accepted => {},
        }
        let rem = match self.update_network(packet, dst_endpoint) {
            None => {
                return Ok(());
            },
            Some(rem) => rem,
        };
        if self.update_transport(packet, rem) {
            self.update_ports(packet, dst_endpoint, original_length);
            proof {
                reveal(MetaPacket::after_ports);
            }
        }
        Ok(())
    }
}

/// Along one run of the decoder the header type only rises: it is `Eth` after
/// a complete link layer, the type after layer 3 is not below `Eth`, and the type
/// after layer 4 is not below the type after layer 3. A type of layer 4 is
/// of the family of the packet's layer 3.
pub proof fn lemma_header_type_rises<'a>(
    p: MetaPacket<'a>,
    frame: &'a [u8],
    src_ep: bool,
    dst_ep: bool,
    ts: u64,
)
    requires
        link_of(frame@).outcome is Accepted,
    ensures
        ({
            let linked = p.after_link(frame, src_ep, dst_ep, ts);
            let (net, next) = linked.after_network(frame@, dst_ep);
            &&& linked.header_type == HeaderType::Eth
            &&& linked.header_type.spec_code() <= net.header_type.spec_code()
            &&& next matches Some(rem) ==> {
                let transport = net.after_transport(frame@, rem).0;
                &&& net.header_type.spec_code() > linked.header_type.spec_code()
                &&& net.header_type.spec_code() <= transport.header_type.spec_code()
                &&& net.header_type == HeaderType::Ipv4 || net.header_type == HeaderType::Ipv6
                &&& (net.header_type == HeaderType::Ipv4) == (net.lookup_key.eth_type
                    == EthernetType::Ipv4)
                &&& transport.lookup_key.eth_type == net.lookup_key.eth_type
                &&& net.header_type == HeaderType::Ipv4 ==> transport.header_type
                    == HeaderType::Ipv4 || transport.header_type == HeaderType::Ipv4ControlMessage
                    || transport.header_type == HeaderType::Ipv4Tcp || transport.header_type
                    == HeaderType::Ipv4Udp
                &&& net.header_type == HeaderType::Ipv6 ==> transport.header_type
                    == HeaderType::Ipv6 || transport.header_type == HeaderType::Ipv6Tcp
                    || transport.header_type == HeaderType::Ipv6Udp
                &&& transport.header_type == HeaderType::Ipv4Tcp || transport.header_type
                    == HeaderType::Ipv6Tcp ==> transport.lookup_key.proto == IpProtocol::Tcp
                &&& transport.header_type == HeaderType::Ipv4Udp || transport.header_type
                    == HeaderType::Ipv6Udp ==> transport.lookup_key.proto == IpProtocol::Udp
                &&& transport.header_type == HeaderType::Ipv4ControlMessage
                    ==> transport.lookup_key.proto == IpProtocol::ControlMessage
            }
        }),
{
    reveal(MetaPacket::after_link);
    reveal(MetaPacket::after_arp);
    reveal(MetaPacket::after_ipv4);
    reveal(MetaPacket::after_ipv6);
    reveal(MetaPacket::after_control);
    reveal(MetaPacket::after_udp);
    reveal(MetaPacket::after_tcp);
    reveal(MetaPacket::after_control_v6);
    reveal(MetaPacket::after_other);
}

/// An IPv4 packet with the more-fragments bit is a fragment, and the decoder
/// leaves the layer 4 of a fragment alone: `npb_ignore_l4` is set, nothing is
/// left for layer 4, the header type stays `Ipv4`, and the ports and the TCP
/// header that the packet held before are untouched.
pub proof fn lemma_fragment_skips_transport<'a>(
    p: MetaPacket<'a>,
    frame: &'a [u8],
    src_ep: bool,
    dst_ep: bool,
    ts: u64,
    wire_len: usize,
)
    requires
        link_of(frame@).outcome is Accepted,
        link_of(frame@).eth_type == EthernetType::Ipv4,
        ({
            let info = ipv4_of(frame@, link_of(frame@).vlan_tag_size as int);
            info.reach is Fragment || info.reach is Complete
        }),
        be16(frame@, FIELD_OFFSET_FRAG + link_of(frame@).vlan_tag_size) & 0x2000 != 0,
    ensures
        ({
            let done = p.decoded(frame, src_ep, dst_ep, ts, wire_len);
            &&& ipv4_of(frame@, link_of(frame@).vlan_tag_size as int).reach is Fragment
            &&& done.npb_ignore_l4
            &&& done.header_type == HeaderType::Ipv4
            &&& done.l4_payload_len == done.l3_payload_len
            &&& done.lookup_key.src_port == p.lookup_key.src_port
            &&& done.lookup_key.dst_port == p.lookup_key.dst_port
            &&& done.tcp_data == p.tcp_data
            &&& done.payload_len == p.payload_len
            &&& p.decoded_sack(frame, src_ep, dst_ep, ts) == sack_view(p.tcp_data.sack)
        }),
{
    reveal(MetaPacket::after_link);
    reveal(MetaPacket::after_ipv4);
    let x = be16(frame@, FIELD_OFFSET_FRAG + link_of(frame@).vlan_tag_size);
    assert(x & 0x2000 != 0 ==> x & 0x3fff != 0) by (bit_vector);
}

/// A TCP header with a data offset of five words has no options, and the
/// decoder does not walk any: what the packet held of TCP options before is
/// what it holds after.
pub proof fn lemma_bare_tcp_header_skips_options<'a>(p: MetaPacket<'a>, frame: Seq<u8>, rem: usize)
    requires
        tcp_of(frame, p.l2_l3_opt_size as int, p.packet_len, rem).reach is Complete,
        tcp_of(frame, p.l2_l3_opt_size as int, p.packet_len, rem).data_offset == 5,
    ensures
        !p.walks_tcp_options(frame, rem),
        p.after_tcp(frame, rem).0.tcp_options_held() == p.tcp_options_held(),
        p.after_tcp(frame, rem).0.l4_opt_size == 0,
        p.lookup_key.proto == IpProtocol::Tcp ==> p.sack_after_transport(frame, rem) == sack_view(
            p.tcp_data.sack,
        ),
{
    reveal(MetaPacket::after_tcp);
}

/// The direction of a system call that sends.
pub const SOCK_DIR_SND: u8 = 0;
/// The direction of a system call that receives.
pub const SOCK_DIR_RCV: u8 = 1;
/// What the headers of a packet take that a kernel probe captured at a
/// socket: Ethernet, IPv4 and TCP without options.
pub const EBPF_HEADER_SIZE: usize = 54;

/// The two ends of a socket as a kernel probe reports them. An IPv4 address
/// stands in the first four bytes of the sixteen.
#[derive(Clone, Copy, Debug)]
pub struct EbpfTuple {
    pub addr_len: u8,
    pub laddr: [u8; 16],
    pub raddr: [u8; 16],
    pub lport: u16,
    pub rport: u16,
    pub protocol: u8,
}

/// What a kernel probe reports of one system call on a socket. `timestamp`
/// is in microseconds.
#[derive(Clone, Debug)]
pub struct EbpfData {
    pub tuple: EbpfTuple,
    pub direction: u8,
    pub timestamp: u64,
    pub cap_len: u32,
    pub cap_data: Vec<u8>,
    pub syscall_len: u64,
    pub process_id: u32,
    pub thread_id: u32,
    pub cap_seq: u64,
    pub syscall_trace_id_call: u64,
    pub process_name: String,
    pub socket_id: u64,
    pub tcp_seq: u64,
    pub l7_protocal_hint: u16,
}

/// The address in the bytes `bytes` of an end of a socket.
pub open spec fn ebpf_addr(addr_len: u8, bytes: Seq<u8>) -> IpAddr {
    if addr_len == 4 {
        IpAddr::spec_v4_from_slice(bytes, 0)
    } else {
        IpAddr::spec_v6_from_slice(bytes, 0)
    }
}

impl<'a> MetaPacket<'a> {
    /// The packet of a system call that a kernel probe reports. A call that
    /// sends has the local end as its source, any other call the remote end.
    /// Of the captured bytes no more than `capture_size` are kept. The result
    /// is an error where the probe names a protocol that the decoder does not
    /// recognise.
    pub fn from_ebpf(data: &EbpfData, capture_size: usize) -> (r: Result<MetaPacket<'a>, Error>)
        ensures
            r is Ok <==> IpProtocol::spec_from_code(data.tuple.protocol) is Some,
            r matches Err(e) ==> e == Error::InvalidIpProtocol,
            r matches Ok(p) ==> {
                let sends = data.direction == SOCK_DIR_SND;
                let local = ebpf_addr(data.tuple.addr_len, data.tuple.laddr@);
                let remote = ebpf_addr(data.tuple.addr_len, data.tuple.raddr@);
                let kept = if capture_size < data.cap_len {
                    capture_size as int
                } else {
                    data.cap_len as int
                };
                &&& p.lookup_key == (LookupKey {
                    timestamp: if data.timestamp * 1000 > u64::MAX {
                        u64::MAX
                    } else {
                        (data.timestamp * 1000) as u64
                    },
                    src_ip: if sends {
                        local
                    } else {
                        remote
                    },
                    dst_ip: if sends {
                        remote
                    } else {
                        local
                    },
                    src_port: if sends {
                        data.tuple.lport
                    } else {
                        data.tuple.rport
                    },
                    dst_port: if sends {
                        data.tuple.rport
                    } else {
                        data.tuple.lport
                    },
                    eth_type: if data.tuple.addr_len == 4 {
                        EthernetType::Ipv4
                    } else {
                        EthernetType::Ipv6
                    },
                    l2_end_0: sends,
                    l2_end_1: data.direction == SOCK_DIR_RCV,
                    proto: IpProtocol::spec_from_code(data.tuple.protocol).unwrap(),
                    tap_type: TapType::Tor,
                    ..LookupKey::default_value()
                })
                &&& p.raw_from_ebpf@ == data.cap_data@.subrange(
                    0,
                    if kept < data.cap_data@.len() {
                        kept
                    } else {
                        data.cap_data@.len() as int
                    },
                )
                &&& p.packet_len == if data.syscall_len + EBPF_HEADER_SIZE > usize::MAX {
                    usize::MAX
                } else {
                    (data.syscall_len + EBPF_HEADER_SIZE) as usize
                }
                &&& p.payload_len == low16(data.cap_len as int)
                &&& p.l4_payload_len == data.cap_len
                &&& p.tap_port == (TapPort {
                    value: (data.process_id + 7 * 0x1000_0000_0000_0000) as u64,
                })
                &&& p.cap_seq == data.cap_seq
                &&& p.process_id == data.process_id
                &&& p.thread_id == data.thread_id
                &&& p.syscall_trace_id == data.syscall_trace_id_call
                &&& p.process_name == data.process_name
                &&& p.socket_id == data.socket_id
                &&& p.tcp_data.seq == (data.tcp_seq % 0x1_0000_0000) as u32
                &&& p.l7_protocol_from_ebpf == L7Protocol::spec_from_code(
                    (data.l7_protocal_hint % 0x100) as u8,
                )
                &&& p.direction == PacketDirection::ClientToServer
                &&& p.raw is None
                &&& p.header_type == HeaderType::Invalid
            },
    {
        let proto = match IpProtocol::from_code(data.tuple.protocol) {
            None => {
                return Err(Error::InvalidIpProtocol);
            },
            Some(p) => p,
        };
        let (local_ip, remote_ip) = if data.tuple.addr_len == 4 {
            (
                IpAddr::v4_from_slice(data.tuple.laddr.as_slice(), 0),
                IpAddr::v4_from_slice(data.tuple.raddr.as_slice(), 0),
            )
        } else {
            (
                IpAddr::v6_from_slice(data.tuple.laddr.as_slice(), 0),
                IpAddr::v6_from_slice(data.tuple.raddr.as_slice(), 0),
            )
        };
        let sends = data.direction == SOCK_DIR_SND;
        let cap_len: usize = if capture_size < data.cap_len as usize {
            capture_size
        } else {
            data.cap_len as usize
        };
        let kept: usize = if cap_len < data.cap_data.len() {
            cap_len
        } else {
            data.cap_data.len()
        };
        let blank = MetaPacket::new();
        let mut tcp_data = MetaPacketTcpHeader::new();
        tcp_data.seq = (data.tcp_seq % 0x1_0000_0000) as u32;
        Ok(
            MetaPacket {
                lookup_key: LookupKey {
                    timestamp: if data.timestamp > u64::MAX / 1000 {
                        u64::MAX
                    } else {
                        data.timestamp * 1000
                    },
                    src_ip: if sends {
                        local_ip
                    } else {
                        remote_ip
                    },
                    dst_ip: if sends {
                        remote_ip
                    } else {
                        local_ip
                    },
                    src_port: if sends {
                        data.tuple.lport
                    } else {
                        data.tuple.rport
                    },
                    dst_port: if sends {
                        data.tuple.rport
                    } else {
                        data.tuple.lport
                    },
                    eth_type: if data.tuple.addr_len == 4 {
                        EthernetType::Ipv4
                    } else {
                        EthernetType::Ipv6
                    },
                    l2_end_0: sends,
                    l2_end_1: data.direction == SOCK_DIR_RCV,
                    proto,
                    tap_type: TapType::Tor,
                    ..LookupKey::default()
                },
                raw_from_ebpf: copy_range(data.cap_data.as_slice(), 0, kept),
                packet_len: if data.syscall_len > (usize::MAX - EBPF_HEADER_SIZE) as u64 {
                    usize::MAX
                } else {
                    data.syscall_len as usize + EBPF_HEADER_SIZE
                },
                payload_len: (data.cap_len % 0x1_0000) as u16,
                l4_payload_len: data.cap_len as usize,
                tap_port: TapPort::from_ebpf(data.process_id),
                cap_seq: data.cap_seq,
                process_id: data.process_id,
                thread_id: data.thread_id,
                syscall_trace_id: data.syscall_trace_id_call,
                process_name: data.process_name.clone(),
                socket_id: data.socket_id,
                tcp_data,
                l7_protocol_from_ebpf: L7Protocol::from_code((data.l7_protocal_hint % 0x100) as u8),
                direction: PacketDirection::ClientToServer,
                ..blank
            },
        )
    }
}

/// The part of `s` from `start` up to `end`.
pub fn slice_subrange<'b>(s: &'b [u8], start: usize, end: usize) -> (r: &'b [u8])
    requires
        start <= end <= s.len(),
    ensures
        r@ == s@.subrange(start as int, end as int),
{
    &s[start..end]
}

} // verus!
