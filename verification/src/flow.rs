//! The shared entity model: flows, their keys, their counters.

use vstd::prelude::*;
use vstd::string::StringExecFns;
use crate::enums::{
    Direction, EthernetType, FlowState, IpProtocol, TapSide, TapType, TcpFlags, TridentType,
    TunnelType, TCP_RST,
};
use crate::consts::EPC_FROM_INTERNET;
use crate::net::{IpAddr, MacAddr};
use crate::tap_port::TapPort;
use crate::text::{append_decimal, decimal};

verus! {

/// The application protocols that the agent tells apart. The codes are
/// visible on the wire and are never reused.
#[derive(Clone, Copy, Debug, PartialEq, Eq, Hash, Structural)]
pub enum L7Protocol {
    Unknown,
    Other,
    Http1,
    Http2,
    Http1TLS,
    Http2TLS,
    Dubbo,
    Mysql,
    Redis,
    Kafka,
    Mqtt,
    Dns,
    Max,
}

impl L7Protocol {
    /// The code of the protocol. `Max` has none of its own and gives 0.
    pub open spec fn spec_code(self) -> u8 {
        match self {
            L7Protocol::Other => 1,
            L7Protocol::Http1 => 20,
            L7Protocol::Http2 => 21,
            L7Protocol::Http1TLS => 22,
            L7Protocol::Http2TLS => 23,
            L7Protocol::Dubbo => 40,
            L7Protocol::Mysql => 60,
            L7Protocol::Redis => 80,
            L7Protocol::Kafka => 100,
            L7Protocol::Mqtt => 101,
            L7Protocol::Dns => 120,
            _ => 0,
        }
    }

    /// The protocol of a code; a code of no protocol gives `Unknown`.
    pub open spec fn spec_from_code(v: u8) -> L7Protocol {
        if v == 1 {
            L7Protocol::Other
        } else if v == 20 {
            L7Protocol::Http1
        } else if v == 21 {
            L7Protocol::Http2
        } else if v == 22 {
            L7Protocol::Http1TLS
        } else if v == 23 {
            L7Protocol::Http2TLS
        } else if v == 40 {
            L7Protocol::Dubbo
        } else if v == 60 {
            L7Protocol::Mysql
        } else if v == 80 {
            L7Protocol::Redis
        } else if v == 100 {
            L7Protocol::Kafka
        } else if v == 101 {
            L7Protocol::Mqtt
        } else if v == 120 {
            L7Protocol::Dns
        } else {
            L7Protocol::Unknown
        }
    }

    pub fn code(self) -> (r: u8)
        ensures
            r == self.spec_code(),
            r <= 120,
    {
        match self {
            L7Protocol::Other => 1,
            L7Protocol::Http1 => 20,
            L7Protocol::Http2 => 21,
            L7Protocol::Http1TLS => 22,
            L7Protocol::Http2TLS => 23,
            L7Protocol::Dubbo => 40,
            L7Protocol::Mysql => 60,
            L7Protocol::Redis => 80,
            L7Protocol::Kafka => 100,
            L7Protocol::Mqtt => 101,
            L7Protocol::Dns => 120,
            _ => 0,
        }
    }

    pub fn from_code(v: u8) -> (r: L7Protocol)
        ensures
            r == L7Protocol::spec_from_code(v),
    {
        if v == 1 {
            L7Protocol::Other
        } else if v == 20 {
            L7Protocol::Http1
        } else if v == 21 {
            L7Protocol::Http2
        } else if v == 22 {
            L7Protocol::Http1TLS
        } else if v == 23 {
            L7Protocol::Http2TLS
        } else if v == 40 {
            L7Protocol::Dubbo
        } else if v == 60 {
            L7Protocol::Mysql
        } else if v == 80 {
            L7Protocol::Redis
        } else if v == 100 {
            L7Protocol::Kafka
        } else if v == 101 {
            L7Protocol::Mqtt
        } else if v == 120 {
            L7Protocol::Dns
        } else {
            L7Protocol::Unknown
        }
    }
}

impl Default for L7Protocol {
    fn default() -> (r: Self)
        ensures
            r == L7Protocol::Unknown,
    {
        L7Protocol::Unknown
    }
}


/// The low 24 bits of a flow identifier: the counter of flows within a second.
pub const COUNTER_FLOW_ID_MASK: u64 = 0x00ff_ffff;

/// Why a flow ended. `ForcedReport` ends nothing: the flow is alive and the
/// record is a periodic snapshot.
#[derive(Clone, Copy, Debug, PartialEq, Eq, Structural)]
pub enum CloseType {
    Unknown,
    TcpFin,
    TcpServerRst,
    Timeout,
    ForcedReport,
    ClientSynRepeat,
    ServerHalfClose,
    TcpClientRst,
    ServerSynAckRepeat,
    ClientHalfClose,
    ClientSourcePortReuse,
    ServerReset,
    ServerQueueLack,
    ClientEstablishReset,
    ServerEstablishReset,
    Max,
}

impl CloseType {
    /// The code of the close type on the wire.
    pub open spec fn spec_code(self) -> u8 {
        match self {
            CloseType::Unknown => 0,
            CloseType::TcpFin => 1,
            CloseType::TcpServerRst => 2,
            CloseType::Timeout => 3,
            CloseType::ForcedReport => 5,
            CloseType::ClientSynRepeat => 7,
            CloseType::ServerHalfClose => 8,
            CloseType::TcpClientRst => 9,
            CloseType::ServerSynAckRepeat => 10,
            CloseType::ClientHalfClose => 11,
            CloseType::ClientSourcePortReuse => 13,
            CloseType::ServerReset => 15,
            CloseType::ServerQueueLack => 17,
            CloseType::ClientEstablishReset => 18,
            CloseType::ServerEstablishReset => 19,
            CloseType::Max => 20,
        }
    }

    pub fn code(self) -> (r: u8)
        ensures
            r == self.spec_code(),
    {
        match self {
            CloseType::Unknown => 0,
            CloseType::TcpFin => 1,
            CloseType::TcpServerRst => 2,
            CloseType::Timeout => 3,
            CloseType::ForcedReport => 5,
            CloseType::ClientSynRepeat => 7,
            CloseType::ServerHalfClose => 8,
            CloseType::TcpClientRst => 9,
            CloseType::ServerSynAckRepeat => 10,
            CloseType::ClientHalfClose => 11,
            CloseType::ClientSourcePortReuse => 13,
            CloseType::ServerReset => 15,
            CloseType::ServerQueueLack => 17,
            CloseType::ClientEstablishReset => 18,
            CloseType::ServerEstablishReset => 19,
            CloseType::Max => 20,
        }
    }

    /// Whether the client is to blame: the codes 7, 9, 11, 13 and 18.
    pub open spec fn client_error(self) -> bool {
        let c = self.spec_code();
        c == 7 || c == 9 || c == 11 || c == 13 || c == 18
    }

    /// Whether the server is to blame: the codes 2, 3, 8, 10, 15, 17 and 19.
    pub open spec fn server_error(self) -> bool {
        let c = self.spec_code();
        c == 2 || c == 3 || c == 8 || c == 10 || c == 15 || c == 17 || c == 19
    }

    pub fn is_client_error(self) -> (r: bool)
        ensures
            r == self.client_error(),
    {
        self == CloseType::ClientSynRepeat || self == CloseType::TcpClientRst || self
            == CloseType::ClientHalfClose || self == CloseType::ClientSourcePortReuse || self
            == CloseType::ClientEstablishReset
    }

    pub fn is_server_error(self) -> (r: bool)
        ensures
            r == self.server_error(),
    {
        self == CloseType::TcpServerRst || self == CloseType::Timeout || self
            == CloseType::ServerHalfClose || self == CloseType::ServerSynAckRepeat || self
            == CloseType::ServerReset || self == CloseType::ServerQueueLack || self
            == CloseType::ServerEstablishReset
    }
}

impl Default for CloseType {
    fn default() -> (r: Self)
        ensures
            r == CloseType::Unknown,
    {
        CloseType::Unknown
    }
}

/// No close type blames both sides.
pub proof fn lemma_close_type_blames_one_side(c: CloseType)
    ensures
        !(c.client_error() && c.server_error()),
{
}

/// The five-tuple of a flow with its layer-2 context. The two addresses are of
/// one family.
#[derive(Clone, Copy, Debug, PartialEq, Eq, PartialOrd, Ord, Structural)]
pub struct FlowKey {
    pub vtap_id: u16,
    pub tap_type: TapType,
    pub tap_port: TapPort,
    pub mac_src: MacAddr,
    pub mac_dst: MacAddr,
    pub ip_src: IpAddr,
    pub ip_dst: IpAddr,
    pub port_src: u16,
    pub port_dst: u16,
    pub proto: IpProtocol,
}

impl FlowKey {
    /// Whether the two addresses are of one family.
    pub open spec fn wf(self) -> bool {
        self.ip_src.spec_is_ipv6() == self.ip_dst.spec_is_ipv6()
    }

    /// The key seen from the other side: source and destination of the link
    /// addresses, the network addresses and the ports change places; where the
    /// flow was captured does not.
    pub open spec fn reversed(self) -> FlowKey {
        FlowKey {
            mac_src: self.mac_dst,
            mac_dst: self.mac_src,
            ip_src: self.ip_dst,
            ip_dst: self.ip_src,
            port_src: self.port_dst,
            port_dst: self.port_src,
            ..self
        }
    }

    pub fn reverse(&mut self)
        ensures
            *final(self) == old(self).reversed(),
            old(self).wf() ==> final(self).wf(),
    {
        *self = FlowKey {
            mac_src: self.mac_dst,
            mac_dst: self.mac_src,
            ip_src: self.ip_dst,
            ip_dst: self.ip_src,
            port_src: self.port_dst,
            port_dst: self.port_src,
            ..*self
        };
    }

    /// The key of no flow.
    pub open spec fn default_value() -> FlowKey {
        FlowKey {
            vtap_id: 0,
            tap_type: TapType::Any,
            tap_port: TapPort { value: 0 },
            mac_src: MacAddr { value: 0 },
            mac_dst: MacAddr { value: 0 },
            ip_src: IpAddr::V4(0),
            ip_dst: IpAddr::V4(0),
            port_src: 0,
            port_dst: 0,
            proto: IpProtocol::Ipv6HopByHop,
        }
    }
}

impl Default for FlowKey {
    fn default() -> (r: Self)
        ensures
            r == FlowKey::default_value(),
            r.wf(),
    {
        FlowKey {
            vtap_id: 0,
            tap_type: TapType::Any,
            tap_port: TapPort { value: 0 },
            mac_src: MacAddr { value: 0 },
            mac_dst: MacAddr { value: 0 },
            ip_src: IpAddr::V4(0),
            ip_dst: IpAddr::V4(0),
            port_src: 0,
            port_dst: 0,
            proto: IpProtocol::Ipv6HopByHop,
        }
    }
}

/// Reversing a flow key twice gives the key back; reversing keeps a key well
/// formed, and touches neither the agent nor the capture point.
pub proof fn lemma_flow_key_reverse_involution(k: FlowKey)
    ensures
        k.reversed().reversed() == k,
        k.wf() <==> k.reversed().wf(),
        k.reversed().vtap_id == k.vtap_id,
        k.reversed().tap_port == k.tap_port,
        k.reversed().tap_type == k.tap_type,
{
}

/// Where a flow record comes from.
#[derive(Clone, Copy, Debug, PartialEq, Eq, Structural)]
pub enum FlowSource {
    Normal,
    Sflow,
    NetFlow,
}

impl FlowSource {
    pub open spec fn spec_code(self) -> u8 {
        match self {
            FlowSource::Normal => 0,
            FlowSource::Sflow => 1,
            FlowSource::NetFlow => 2,
        }
    }

    pub fn code(self) -> (r: u8)
        ensures
            r == self.spec_code(),
    {
        match self {
            FlowSource::Normal => 0,
            FlowSource::Sflow => 1,
            FlowSource::NetFlow => 2,
        }
    }
}

impl Default for FlowSource {
    fn default() -> (r: Self)
        ensures
            r == FlowSource::Normal,
    {
        FlowSource::Normal
    }
}

/// The encapsulation of a tunnelled flow, in the transmit and in the receive
/// direction. The addresses are IPv4 addresses as numbers; of the link
/// addresses the low four bytes are kept.
#[derive(Clone, Copy, Debug, PartialEq, Eq, Structural)]
pub struct TunnelField {
    pub tx_ip0: u32,
    pub tx_ip1: u32,
    pub rx_ip0: u32,
    pub rx_ip1: u32,
    pub tx_mac0: u32,
    pub tx_mac1: u32,
    pub rx_mac0: u32,
    pub rx_mac1: u32,
    pub tx_id: u32,
    pub rx_id: u32,
    pub tunnel_type: TunnelType,
    pub tier: u8,
    pub is_ipv6: bool,
}

impl TunnelField {
    /// The tunnel seen from the other side: transmit and receive change places.
    pub open spec fn reversed(self) -> TunnelField {
        TunnelField {
            tx_ip0: self.rx_ip0,
            tx_ip1: self.rx_ip1,
            rx_ip0: self.tx_ip0,
            rx_ip1: self.tx_ip1,
            tx_mac0: self.rx_mac0,
            tx_mac1: self.rx_mac1,
            rx_mac0: self.tx_mac0,
            rx_mac1: self.tx_mac1,
            tx_id: self.rx_id,
            rx_id: self.tx_id,
            ..self
        }
    }

    pub fn reverse(&mut self)
        ensures
            *final(self) == old(self).reversed(),
    {
        *self = TunnelField {
            tx_ip0: self.rx_ip0,
            tx_ip1: self.rx_ip1,
            rx_ip0: self.tx_ip0,
            rx_ip1: self.tx_ip1,
            tx_mac0: self.rx_mac0,
            tx_mac1: self.rx_mac1,
            rx_mac0: self.tx_mac0,
            rx_mac1: self.tx_mac1,
            tx_id: self.rx_id,
            rx_id: self.tx_id,
            ..*self
        };
    }

    /// No tunnel.
    pub open spec fn default_value() -> TunnelField {
        TunnelField {
            tx_ip0: 0,
            tx_ip1: 0,
            rx_ip0: 0,
            rx_ip1: 0,
            tx_mac0: 0,
            tx_mac1: 0,
            rx_mac0: 0,
            rx_mac1: 0,
            tx_id: 0,
            rx_id: 0,
            tunnel_type: TunnelType::NoTunnel,
            tier: 0,
            is_ipv6: false,
        }
    }
}

impl Default for TunnelField {
    fn default() -> (r: Self)
        ensures
            r == TunnelField::default_value(),
    {
        TunnelField {
            tx_ip0: 0,
            tx_ip1: 0,
            rx_ip0: 0,
            rx_ip1: 0,
            tx_mac0: 0,
            tx_mac1: 0,
            rx_mac0: 0,
            rx_mac1: 0,
            tx_id: 0,
            rx_id: 0,
            tunnel_type: TunnelType::NoTunnel,
            tier: 0,
            is_ipv6: false,
        }
    }
}

/// Reversing a tunnel twice gives the tunnel back; reversing touches neither
/// the type, the tier nor the family.
pub proof fn lemma_tunnel_reverse_involution(t: TunnelField)
    ensures
        t.reversed().reversed() == t,
        t.reversed().tunnel_type == t.tunnel_type,
        t.reversed().tier == t.tier,
        t.reversed().is_ipv6 == t.is_ipv6,
{
}

/// The sum of two counters, held at the greatest 32-bit number where it would
/// pass it.
pub open spec fn sum32(a: u32, b: u32) -> u32 {
    if a + b > u32::MAX {
        u32::MAX
    } else {
        (a + b) as u32
    }
}

/// The sum of two counters, held at the greatest 64-bit number where it would
/// pass it.
pub open spec fn sum64(a: u64, b: u64) -> u64 {
    if a + b > u64::MAX {
        u64::MAX
    } else {
        (a + b) as u64
    }
}

/// The greater of two 32-bit numbers.
pub open spec fn max32(a: u32, b: u32) -> u32 {
    if a < b {
        b
    } else {
        a
    }
}

fn add32(a: u32, b: u32) -> (r: u32)
    ensures
        r == sum32(a, b),
{
    a.saturating_add(b)
}

fn add64(a: u64, b: u64) -> (r: u64)
    ensures
        r == sum64(a, b),
{
    a.saturating_add(b)
}

fn greater32(a: u32, b: u32) -> (r: u32)
    ensures
        r == max32(a, b),
{
    if a < b {
        b
    } else {
        a
    }
}

/// The TCP counters of one side of a flow.
#[derive(Clone, Copy, Debug, PartialEq, Eq, Structural)]
pub struct TcpPerfCountsPeer {
    pub retrans_count: u32,
    pub zero_win_count: u32,
}

impl TcpPerfCountsPeer {
    /// The counters of two periods in a row.
    pub open spec fn merged(self, other: TcpPerfCountsPeer) -> TcpPerfCountsPeer {
        TcpPerfCountsPeer {
            retrans_count: sum32(self.retrans_count, other.retrans_count),
            zero_win_count: sum32(self.zero_win_count, other.zero_win_count),
        }
    }

    pub fn sequential_merge(&mut self, other: &TcpPerfCountsPeer)
        ensures
            *final(self) == old(self).merged(*other),
    {
        *self = TcpPerfCountsPeer {
            retrans_count: add32(self.retrans_count, other.retrans_count),
            zero_win_count: add32(self.zero_win_count, other.zero_win_count),
        };
    }
}

impl Default for TcpPerfCountsPeer {
    fn default() -> (r: Self)
        ensures
            r.retrans_count == 0 && r.zero_win_count == 0,
    {
        TcpPerfCountsPeer { retrans_count: 0, zero_win_count: 0 }
    }
}

/// The TCP metrics of a flow over one statistics period. Delays are in
/// microseconds. UDP flows use the three `art` fields alone.
#[derive(Clone, Copy, Debug, PartialEq, Eq)]
pub struct TcpPerfStats {
    pub rtt_client_max: u32,
    pub rtt_server_max: u32,
    pub srt_max: u32,
    pub art_max: u32,
    pub cit_max: u32,
    /// The round-trip time of the handshake.
    pub rtt: u32,
    pub rtt_client_sum: u32,
    pub rtt_server_sum: u32,
    pub srt_sum: u32,
    pub art_sum: u32,
    pub cit_sum: u32,
    pub rtt_client_count: u32,
    pub rtt_server_count: u32,
    pub srt_count: u32,
    pub art_count: u32,
    pub cit_count: u32,
    pub syn_count: u32,
    pub synack_count: u32,
    pub retrans_syn_count: u32,
    pub retrans_synack_count: u32,
    /// The counters of the client side and of the server side.
    pub counts_peers: [TcpPerfCountsPeer; 2],
    pub total_retrans_count: u32,
}

impl TcpPerfStats {
    /// The metrics of two periods in a row: the greater of each maximum and of
    /// the handshake time, the sum of each sum and count.
    pub open spec fn merged(self, other: TcpPerfStats) -> TcpPerfStats {
        TcpPerfStats {
            rtt_client_max: max32(self.rtt_client_max, other.rtt_client_max),
            rtt_server_max: max32(self.rtt_server_max, other.rtt_server_max),
            srt_max: max32(self.srt_max, other.srt_max),
            art_max: max32(self.art_max, other.art_max),
            cit_max: max32(self.cit_max, other.cit_max),
            rtt: max32(self.rtt, other.rtt),
            rtt_client_sum: sum32(self.rtt_client_sum, other.rtt_client_sum),
            rtt_server_sum: sum32(self.rtt_server_sum, other.rtt_server_sum),
            srt_sum: sum32(self.srt_sum, other.srt_sum),
            art_sum: sum32(self.art_sum, other.art_sum),
            cit_sum: sum32(self.cit_sum, other.cit_sum),
            rtt_client_count: sum32(self.rtt_client_count, other.rtt_client_count),
            rtt_server_count: sum32(self.rtt_server_count, other.rtt_server_count),
            srt_count: sum32(self.srt_count, other.srt_count),
            art_count: sum32(self.art_count, other.art_count),
            cit_count: sum32(self.cit_count, other.cit_count),
            syn_count: sum32(self.syn_count, other.syn_count),
            synack_count: sum32(self.synack_count, other.synack_count),
            retrans_syn_count: sum32(self.retrans_syn_count, other.retrans_syn_count),
            retrans_synack_count: sum32(self.retrans_synack_count, other.retrans_synack_count),
            counts_peers: [
                self.counts_peers[0].merged(other.counts_peers[0]),
                self.counts_peers[1].merged(other.counts_peers[1]),
            ],
            total_retrans_count: sum32(self.total_retrans_count, other.total_retrans_count),
        }
    }

    pub fn sequential_merge(&mut self, other: &TcpPerfStats)
        ensures
            *final(self) == old(self).merged(*other),
    {
        let mut peer0 = self.counts_peers[0];
        peer0.sequential_merge(&other.counts_peers[0]);
        let mut peer1 = self.counts_peers[1];
        peer1.sequential_merge(&other.counts_peers[1]);
        let counts_peers = [peer0, peer1];
        assert(counts_peers@ =~= old(self).merged(*other).counts_peers@);
        *self = TcpPerfStats {
            rtt_client_max: greater32(self.rtt_client_max, other.rtt_client_max),
            rtt_server_max: greater32(self.rtt_server_max, other.rtt_server_max),
            srt_max: greater32(self.srt_max, other.srt_max),
            art_max: greater32(self.art_max, other.art_max),
            cit_max: greater32(self.cit_max, other.cit_max),
            rtt: greater32(self.rtt, other.rtt),
            rtt_client_sum: add32(self.rtt_client_sum, other.rtt_client_sum),
            rtt_server_sum: add32(self.rtt_server_sum, other.rtt_server_sum),
            srt_sum: add32(self.srt_sum, other.srt_sum),
            art_sum: add32(self.art_sum, other.art_sum),
            cit_sum: add32(self.cit_sum, other.cit_sum),
            rtt_client_count: add32(self.rtt_client_count, other.rtt_client_count),
            rtt_server_count: add32(self.rtt_server_count, other.rtt_server_count),
            srt_count: add32(self.srt_count, other.srt_count),
            art_count: add32(self.art_count, other.art_count),
            cit_count: add32(self.cit_count, other.cit_count),
            syn_count: add32(self.syn_count, other.syn_count),
            synack_count: add32(self.synack_count, other.synack_count),
            retrans_syn_count: add32(self.retrans_syn_count, other.retrans_syn_count),
            retrans_synack_count: add32(self.retrans_synack_count, other.retrans_synack_count),
            counts_peers,
            total_retrans_count: add32(self.total_retrans_count, other.total_retrans_count),
        };
    }

    /// The metrics seen from the other side: the sums and counts of the
    /// round-trip times of client and server change places, and so do the
    /// counters of the two sides.
    pub open spec fn reversed(self) -> TcpPerfStats {
        TcpPerfStats {
            rtt_client_sum: self.rtt_server_sum,
            rtt_server_sum: self.rtt_client_sum,
            rtt_client_count: self.rtt_server_count,
            rtt_server_count: self.rtt_client_count,
            counts_peers: [self.counts_peers[1], self.counts_peers[0]],
            ..self
        }
    }

    pub fn reverse(&mut self)
        ensures
            *final(self) == old(self).reversed(),
    {
        let counts_peers = [self.counts_peers[1], self.counts_peers[0]];
        assert(counts_peers@ =~= old(self).reversed().counts_peers@);
        *self = TcpPerfStats {
            rtt_client_sum: self.rtt_server_sum,
            rtt_server_sum: self.rtt_client_sum,
            rtt_client_count: self.rtt_server_count,
            rtt_server_count: self.rtt_client_count,
            counts_peers,
            ..*self
        };
    }

    /// The metrics of a period in which nothing was seen.
    pub open spec fn zero(self) -> bool {
        &&& self.rtt_client_max == 0 && self.rtt_server_max == 0 && self.srt_max == 0
        &&& self.art_max == 0 && self.cit_max == 0 && self.rtt == 0
        &&& self.rtt_client_sum == 0 && self.rtt_server_sum == 0 && self.srt_sum == 0
        &&& self.art_sum == 0 && self.cit_sum == 0
        &&& self.rtt_client_count == 0 && self.rtt_server_count == 0 && self.srt_count == 0
        &&& self.art_count == 0 && self.cit_count == 0 && self.syn_count == 0
        &&& self.synack_count == 0 && self.retrans_syn_count == 0
        &&& self.retrans_synack_count == 0 && self.total_retrans_count == 0
        &&& self.counts_peers[0] == (TcpPerfCountsPeer { retrans_count: 0, zero_win_count: 0 })
        &&& self.counts_peers[1] == (TcpPerfCountsPeer { retrans_count: 0, zero_win_count: 0 })
    }
}

impl Default for TcpPerfStats {
    fn default() -> (r: Self)
        ensures
            r.zero(),
    {
        let none = TcpPerfCountsPeer { retrans_count: 0, zero_win_count: 0 };
        TcpPerfStats {
            rtt_client_max: 0,
            rtt_server_max: 0,
            srt_max: 0,
            art_max: 0,
            cit_max: 0,
            rtt: 0,
            rtt_client_sum: 0,
            rtt_server_sum: 0,
            srt_sum: 0,
            art_sum: 0,
            cit_sum: 0,
            rtt_client_count: 0,
            rtt_server_count: 0,
            srt_count: 0,
            art_count: 0,
            cit_count: 0,
            syn_count: 0,
            synack_count: 0,
            retrans_syn_count: 0,
            retrans_synack_count: 0,
            counts_peers: [none, none],
            total_retrans_count: 0,
        }
    }
}

/// The application-layer metrics of a flow over one statistics period. The
/// request-response times are in microseconds.
#[derive(Clone, Copy, Debug, PartialEq, Eq, Structural)]
pub struct L7PerfStats {
    pub request_count: u32,
    pub response_count: u32,
    pub err_client_count: u32,
    pub err_server_count: u32,
    pub err_timeout: u32,
    pub rrt_count: u32,
    pub rrt_sum: u64,
    pub rrt_max: u32,
}

impl L7PerfStats {
    /// The metrics of two periods in a row.
    pub open spec fn merged(self, other: L7PerfStats) -> L7PerfStats {
        L7PerfStats {
            request_count: sum32(self.request_count, other.request_count),
            response_count: sum32(self.response_count, other.response_count),
            err_client_count: sum32(self.err_client_count, other.err_client_count),
            err_server_count: sum32(self.err_server_count, other.err_server_count),
            err_timeout: sum32(self.err_timeout, other.err_timeout),
            rrt_count: sum32(self.rrt_count, other.rrt_count),
            rrt_sum: sum64(self.rrt_sum, other.rrt_sum),
            rrt_max: max32(self.rrt_max, other.rrt_max),
        }
    }

    pub fn sequential_merge(&mut self, other: &L7PerfStats)
        ensures
            *final(self) == old(self).merged(*other),
    {
        *self = L7PerfStats {
            request_count: add32(self.request_count, other.request_count),
            response_count: add32(self.response_count, other.response_count),
            err_client_count: add32(self.err_client_count, other.err_client_count),
            err_server_count: add32(self.err_server_count, other.err_server_count),
            err_timeout: add32(self.err_timeout, other.err_timeout),
            rrt_count: add32(self.rrt_count, other.rrt_count),
            rrt_sum: add64(self.rrt_sum, other.rrt_sum),
            rrt_max: greater32(self.rrt_max, other.rrt_max),
        };
    }
}

impl Default for L7PerfStats {
    fn default() -> (r: Self)
        ensures
            r == (L7PerfStats {
                request_count: 0,
                response_count: 0,
                err_client_count: 0,
                err_server_count: 0,
                err_timeout: 0,
                rrt_count: 0,
                rrt_sum: 0,
                rrt_max: 0,
            }),
    {
        L7PerfStats {
            request_count: 0,
            response_count: 0,
            err_client_count: 0,
            err_server_count: 0,
            err_timeout: 0,
            rrt_count: 0,
            rrt_sum: 0,
            rrt_max: 0,
        }
    }
}

/// The transport protocol of a flow.
#[derive(Clone, Copy, Debug, PartialEq, Eq, Structural)]
pub enum L4Protocol {
    Unknown,
    Tcp,
    Udp,
}

impl L4Protocol {
    pub open spec fn spec_code(self) -> u8 {
        match self {
            L4Protocol::Unknown => 0,
            L4Protocol::Tcp => 1,
            L4Protocol::Udp => 2,
        }
    }

    pub fn code(self) -> (r: u8)
        ensures
            r == self.spec_code(),
    {
        match self {
            L4Protocol::Unknown => 0,
            L4Protocol::Tcp => 1,
            L4Protocol::Udp => 2,
        }
    }

    /// The transport protocol that an IP protocol stands for.
    pub open spec fn of_ip_protocol(proto: IpProtocol) -> L4Protocol {
        match proto {
            IpProtocol::Tcp => L4Protocol::Tcp,
            IpProtocol::Udp => L4Protocol::Udp,
            _ => L4Protocol::Unknown,
        }
    }

    pub fn from_ip_protocol(proto: IpProtocol) -> (r: L4Protocol)
        ensures
            r == L4Protocol::of_ip_protocol(proto),
    {
        match proto {
            IpProtocol::Tcp => L4Protocol::Tcp,
            IpProtocol::Udp => L4Protocol::Udp,
            _ => L4Protocol::Unknown,
        }
    }
}

impl Default for L4Protocol {
    fn default() -> (r: Self)
        ensures
            r == L4Protocol::Unknown,
    {
        L4Protocol::Unknown
    }
}

/// The performance data of a flow.
#[derive(Clone, Copy, Debug, PartialEq, Eq)]
pub struct FlowPerfStats {
    pub tcp: TcpPerfStats,
    pub l7: L7PerfStats,
    pub l4_protocol: L4Protocol,
    pub l7_protocol: L7Protocol,
}

impl FlowPerfStats {
    /// The data of two periods in a row. A protocol that is known stays; an
    /// application protocol known only as `Other` gives way to any that the
    /// later period knows.
    pub open spec fn merged(self, other: FlowPerfStats) -> FlowPerfStats {
        FlowPerfStats {
            tcp: self.tcp.merged(other.tcp),
            l7: self.l7.merged(other.l7),
            l4_protocol: if self.l4_protocol == L4Protocol::Unknown {
                other.l4_protocol
            } else {
                self.l4_protocol
            },
            l7_protocol: if self.l7_protocol == L7Protocol::Unknown || (self.l7_protocol
                == L7Protocol::Other && other.l7_protocol != L7Protocol::Unknown) {
                other.l7_protocol
            } else {
                self.l7_protocol
            },
        }
    }

    pub fn sequential_merge(&mut self, other: &FlowPerfStats)
        ensures
            *final(self) == old(self).merged(*other),
    {
        let mut tcp = self.tcp;
        tcp.sequential_merge(&other.tcp);
        let mut l7 = self.l7;
        l7.sequential_merge(&other.l7);
        *self = FlowPerfStats {
            tcp,
            l7,
            l4_protocol: if self.l4_protocol == L4Protocol::Unknown {
                other.l4_protocol
            } else {
                self.l4_protocol
            },
            l7_protocol: if self.l7_protocol == L7Protocol::Unknown || (self.l7_protocol
                == L7Protocol::Other && other.l7_protocol != L7Protocol::Unknown) {
                other.l7_protocol
            } else {
                self.l7_protocol
            },
        };
    }

    /// The data seen from the other side.
    pub open spec fn reversed(self) -> FlowPerfStats {
        FlowPerfStats { tcp: self.tcp.reversed(), ..self }
    }

    pub fn reverse(&mut self)
        ensures
            *final(self) == old(self).reversed(),
    {
        let mut tcp = self.tcp;
        tcp.reverse();
        *self = FlowPerfStats { tcp, ..*self };
    }
}

impl Default for FlowPerfStats {
    fn default() -> (r: Self)
        ensures
            r.tcp.zero(),
            r.l7 == L7PerfStats::default_stats(),
            r.l4_protocol == L4Protocol::Unknown,
            r.l7_protocol == L7Protocol::Unknown,
    {
        FlowPerfStats {
            tcp: TcpPerfStats::default(),
            l7: L7PerfStats::default(),
            l4_protocol: L4Protocol::Unknown,
            l7_protocol: L7Protocol::Unknown,
        }
    }
}

impl L7PerfStats {
    /// The metrics of a period in which nothing was seen.
    pub open spec fn default_stats() -> L7PerfStats {
        L7PerfStats {
            request_count: 0,
            response_count: 0,
            err_client_count: 0,
            err_server_count: 0,
            err_timeout: 0,
            rrt_count: 0,
            rrt_sum: 0,
            rrt_max: 0,
        }
    }
}

/// Reversing the TCP metrics twice gives them back.
pub proof fn lemma_tcp_perf_reverse_involution(s: TcpPerfStats)
    ensures
        s.reversed().reversed() == s,
{
    assert(s.reversed().reversed().counts_peers =~= s.counts_peers);
    assert(s.reversed().reversed() =~= s);
}

/// The counters and the properties of one side of a flow. Times are in
/// nanoseconds.
#[derive(Clone, Copy, Debug, PartialEq, Eq, Structural)]
pub struct FlowMetricsPeer {
    /// The address behind a virtual address, found by the link address.
    pub nat_real_ip: IpAddr,
    pub byte_count: u64,
    pub l3_byte_count: u64,
    pub l4_byte_count: u64,
    pub packet_count: u64,
    pub total_byte_count: u64,
    pub total_packet_count: u64,
    pub first: u64,
    pub last: u64,
    pub l3_epc_id: i32,
    pub is_l2_end: bool,
    pub is_l3_end: bool,
    pub is_active_host: bool,
    pub is_device: bool,
    /// Every TCP flag that was seen on this side.
    pub tcp_flags: TcpFlags,
    pub is_vip_interface: bool,
    pub is_vip: bool,
    pub is_local_mac: bool,
    pub is_local_ip: bool,
}

pub const FLOW_METRICS_PEER_SRC: usize = 0;
pub const FLOW_METRICS_PEER_DST: usize = 1;

impl FlowMetricsPeer {
    /// One side over two periods in a row: the counters add up, the flags
    /// gather, and of everything else the later observation stands. The address
    /// behind a virtual address stays.
    pub open spec fn merged(self, other: FlowMetricsPeer) -> FlowMetricsPeer {
        FlowMetricsPeer {
            nat_real_ip: self.nat_real_ip,
            byte_count: sum64(self.byte_count, other.byte_count),
            l3_byte_count: sum64(self.l3_byte_count, other.l3_byte_count),
            l4_byte_count: sum64(self.l4_byte_count, other.l4_byte_count),
            packet_count: sum64(self.packet_count, other.packet_count),
            total_byte_count: sum64(self.total_byte_count, other.total_byte_count),
            total_packet_count: sum64(self.total_packet_count, other.total_packet_count),
            tcp_flags: self.tcp_flags.spec_union(other.tcp_flags),
            ..other
        }
    }

    pub fn sequential_merge(&mut self, other: &FlowMetricsPeer)
        ensures
            *final(self) == old(self).merged(*other),
    {
        *self = FlowMetricsPeer {
            nat_real_ip: self.nat_real_ip,
            byte_count: add64(self.byte_count, other.byte_count),
            l3_byte_count: add64(self.l3_byte_count, other.l3_byte_count),
            l4_byte_count: add64(self.l4_byte_count, other.l4_byte_count),
            packet_count: add64(self.packet_count, other.packet_count),
            total_byte_count: add64(self.total_byte_count, other.total_byte_count),
            total_packet_count: add64(self.total_packet_count, other.total_packet_count),
            tcp_flags: self.tcp_flags.union(other.tcp_flags),
            ..*other
        };
    }

    /// A side on which nothing was seen.
    pub open spec fn default_value() -> FlowMetricsPeer {
        FlowMetricsPeer {
            nat_real_ip: IpAddr::V4(0),
            byte_count: 0,
            l3_byte_count: 0,
            l4_byte_count: 0,
            packet_count: 0,
            total_byte_count: 0,
            total_packet_count: 0,
            first: 0,
            last: 0,
            l3_epc_id: 0,
            is_l2_end: false,
            is_l3_end: false,
            is_active_host: false,
            is_device: false,
            tcp_flags: TcpFlags { bits: 0 },
            is_vip_interface: false,
            is_vip: false,
            is_local_mac: false,
            is_local_ip: false,
        }
    }
}

impl Default for FlowMetricsPeer {
    fn default() -> (r: Self)
        ensures
            r == FlowMetricsPeer::default_value(),
    {
        FlowMetricsPeer {
            nat_real_ip: IpAddr::V4(0),
            byte_count: 0,
            l3_byte_count: 0,
            l4_byte_count: 0,
            packet_count: 0,
            total_byte_count: 0,
            total_packet_count: 0,
            first: 0,
            last: 0,
            l3_epc_id: 0,
            is_l2_end: false,
            is_l3_end: false,
            is_active_host: false,
            is_device: false,
            tcp_flags: TcpFlags { bits: 0 },
            is_vip_interface: false,
            is_vip: false,
            is_local_mac: false,
            is_local_ip: false,
        }
    }
}

/// A flow: one connection as the agent summarises it. Times are in
/// nanoseconds since the epoch.
#[derive(Clone, Copy, Debug, PartialEq, Eq)]
pub struct Flow {
    pub flow_key: FlowKey,
    /// The source side and the destination side.
    pub flow_metrics_peers: [FlowMetricsPeer; 2],
    pub tunnel: TunnelField,
    pub flow_id: u64,
    pub syn_seq: u32,
    pub synack_seq: u32,
    pub last_keepalive_seq: u32,
    pub last_keepalive_ack: u32,
    pub start_time: u64,
    pub end_time: u64,
    pub duration: u64,
    /// The time of the statistics period that the record reports.
    pub flow_stat_time: u64,
    pub vlan: u16,
    pub eth_type: EthernetType,
    pub flow_perf_stats: Option<FlowPerfStats>,
    pub close_type: CloseType,
    pub flow_source: FlowSource,
    pub is_active_service: bool,
    pub queue_hash: u8,
    pub is_new_flow: bool,
    pub reversed: bool,
    pub tap_side: TapSide,
}

/// The performance data of two periods in a row, where either may have none.
pub open spec fn merged_perf(a: Option<FlowPerfStats>, b: Option<FlowPerfStats>) -> Option<
    FlowPerfStats,
> {
    match (a, b) {
        (_, None) => a,
        (None, Some(y)) => Some(y),
        (Some(x), Some(y)) => Some(x.merged(y)),
    }
}

/// The close type that the state `flow_state` of the TCP state machine gives a
/// flow whose destination side has seen the flags `dst_flags` and
/// `dst_packets` packets in all.
pub open spec fn close_type_of(flow_state: FlowState, dst_flags: TcpFlags, dst_packets: u64) -> CloseType {
    match flow_state {
        FlowState::Exception => CloseType::Unknown,
        FlowState::Opening1 => CloseType::ClientSynRepeat,
        FlowState::Opening2 => CloseType::ServerSynAckRepeat,
        FlowState::Established => CloseType::Timeout,
        FlowState::ClosingTx1 => CloseType::ServerHalfClose,
        FlowState::ClosingRx1 => CloseType::ClientHalfClose,
        FlowState::ClosingTx2 | FlowState::ClosingRx2 | FlowState::Closed => CloseType::TcpFin,
        FlowState::Reset => if dst_flags.spec_contains(TCP_RST) {
            CloseType::TcpServerRst
        } else {
            CloseType::TcpClientRst
        },
        FlowState::Syn1 | FlowState::ClientL4PortReuse => CloseType::ClientSourcePortReuse,
        FlowState::ServerReset => CloseType::ServerReset,
        FlowState::SynAck1 => CloseType::ServerQueueLack,
        FlowState::ServerCandidateQueueLack => if dst_packets > 3 {
            CloseType::ServerQueueLack
        } else {
            CloseType::TcpClientRst
        },
        FlowState::EstablishReset => if dst_flags.spec_contains(TCP_RST) {
            CloseType::ServerEstablishReset
        } else {
            CloseType::ClientEstablishReset
        },
        _ => CloseType::Unknown,
    }
}

impl Flow {
    /// The flow over two periods in a row: the sides and the performance data
    /// merge; the end, the duration, the close type, the service flag and the
    /// orientation are those of the later record; a VLAN and keep-alive numbers
    /// are taken from the later record where it has any.
    pub open spec fn merged(self, other: Flow) -> Flow {
        Flow {
            flow_metrics_peers: [
                self.flow_metrics_peers[0].merged(other.flow_metrics_peers[0]),
                self.flow_metrics_peers[1].merged(other.flow_metrics_peers[1]),
            ],
            end_time: other.end_time,
            duration: other.duration,
            flow_perf_stats: merged_perf(self.flow_perf_stats, other.flow_perf_stats),
            close_type: other.close_type,
            is_active_service: other.is_active_service,
            reversed: other.reversed,
            vlan: if other.vlan > 0 {
                other.vlan
            } else {
                self.vlan
            },
            last_keepalive_seq: if other.last_keepalive_seq != 0 {
                other.last_keepalive_seq
            } else {
                self.last_keepalive_seq
            },
            last_keepalive_ack: if other.last_keepalive_ack != 0 {
                other.last_keepalive_ack
            } else {
                self.last_keepalive_ack
            },
            ..self
        }
    }

    pub fn sequential_merge(&mut self, other: &Flow)
        ensures
            *final(self) == old(self).merged(*other),
    {
        let mut peer0 = self.flow_metrics_peers[0];
        peer0.sequential_merge(&other.flow_metrics_peers[0]);
        let mut peer1 = self.flow_metrics_peers[1];
        peer1.sequential_merge(&other.flow_metrics_peers[1]);
        let flow_metrics_peers = [peer0, peer1];
        assert(flow_metrics_peers@ =~= old(self).merged(*other).flow_metrics_peers@);
        let flow_perf_stats = match other.flow_perf_stats {
            None => self.flow_perf_stats,
            Some(y) => match self.flow_perf_stats {
                None => Some(y),
                Some(x) => {
                    let mut m = x;
                    m.sequential_merge(&y);
                    Some(m)
                },
            },
        };
        *self = Flow {
            flow_metrics_peers,
            end_time: other.end_time,
            duration: other.duration,
            flow_perf_stats,
            close_type: other.close_type,
            is_active_service: other.is_active_service,
            reversed: other.reversed,
            vlan: if other.vlan > 0 {
                other.vlan
            } else {
                self.vlan
            },
            last_keepalive_seq: if other.last_keepalive_seq != 0 {
                other.last_keepalive_seq
            } else {
                self.last_keepalive_seq
            },
            last_keepalive_ack: if other.last_keepalive_ack != 0 {
                other.last_keepalive_ack
            } else {
                self.last_keepalive_ack
            },
            ..*self
        };
    }

    /// The flow seen from the other side. The key, the tunnel and the two sides
    /// turn round and the observation point is forgotten. `reversed` toggles,
    /// but is never set where `no_stats` says that no statistics are there to
    /// be turned round. The TCP metrics are left to their own `reverse`.
    pub open spec fn spec_reversed(self, no_stats: bool) -> Flow {
        Flow {
            reversed: !self.reversed && !no_stats,
            tap_side: TapSide::Rest,
            tunnel: self.tunnel.reversed(),
            flow_key: self.flow_key.reversed(),
            flow_metrics_peers: [self.flow_metrics_peers[1], self.flow_metrics_peers[0]],
            ..self
        }
    }

    pub fn reverse(&mut self, no_stats: bool)
        ensures
            *final(self) == old(self).spec_reversed(no_stats),
    {
        let mut tunnel = self.tunnel;
        tunnel.reverse();
        let mut flow_key = self.flow_key;
        flow_key.reverse();
        let flow_metrics_peers = [self.flow_metrics_peers[1], self.flow_metrics_peers[0]];
        assert(flow_metrics_peers@ =~= old(self).spec_reversed(no_stats).flow_metrics_peers@);
        *self = Flow {
            reversed: !self.reversed && !no_stats,
            tap_side: TapSide::Rest,
            tunnel,
            flow_key,
            flow_metrics_peers,
            ..*self
        };
    }

    /// Sets the close type by the state in which the TCP state machine of the
    /// flow ended.
    pub fn update_close_type(&mut self, flow_state: FlowState)
        ensures
            *final(self) == (Flow {
                close_type: close_type_of(
                    flow_state,
                    old(self).flow_metrics_peers[1].tcp_flags,
                    old(self).flow_metrics_peers[1].total_packet_count,
                ),
                ..*old(self)
            }),
    {
        let dst = self.flow_metrics_peers[FLOW_METRICS_PEER_DST];
        let close_type = match flow_state {
            FlowState::Exception => CloseType::Unknown,
            FlowState::Opening1 => CloseType::ClientSynRepeat,
            FlowState::Opening2 => CloseType::ServerSynAckRepeat,
            FlowState::Established => CloseType::Timeout,
            FlowState::ClosingTx1 => CloseType::ServerHalfClose,
            FlowState::ClosingRx1 => CloseType::ClientHalfClose,
            FlowState::ClosingTx2 | FlowState::ClosingRx2 | FlowState::Closed => CloseType::TcpFin,
            FlowState::Reset => {
                if dst.tcp_flags.contains(TCP_RST) {
                    CloseType::TcpServerRst
                } else {
                    CloseType::TcpClientRst
                }
            },
            FlowState::Syn1 | FlowState::ClientL4PortReuse => CloseType::ClientSourcePortReuse,
            FlowState::ServerReset => CloseType::ServerReset,
            FlowState::SynAck1 => CloseType::ServerQueueLack,
            FlowState::ServerCandidateQueueLack => {
                if dst.total_packet_count > 3 {
                    CloseType::ServerQueueLack
                } else {
                    CloseType::TcpClientRst
                }
            },
            FlowState::EstablishReset => {
                if dst.tcp_flags.contains(TCP_RST) {
                    CloseType::ServerEstablishReset
                } else {
                    CloseType::ClientEstablishReset
                }
            },
            _ => CloseType::Unknown,
        };
        *self = Flow { close_type, ..*self };
    }

    /// Whether the record is a periodic snapshot of a flow that is alive.
    pub fn close_type_is_forced_report(&self) -> (r: bool)
        ensures
            r == (self.close_type == CloseType::ForcedReport),
    {
        match self.close_type {
            CloseType::ForcedReport => true,
            _ => false,
        }
    }

    /// A flow of which nothing is known.
    pub open spec fn default_value() -> Flow {
        Flow {
            flow_key: FlowKey::default_value(),
            flow_metrics_peers: [FlowMetricsPeer::default_value(), FlowMetricsPeer::default_value()],
            tunnel: TunnelField::default_value(),
            flow_id: 0,
            syn_seq: 0,
            synack_seq: 0,
            last_keepalive_seq: 0,
            last_keepalive_ack: 0,
            start_time: 0,
            end_time: 0,
            duration: 0,
            flow_stat_time: 0,
            vlan: 0,
            eth_type: EthernetType::Llc,
            flow_perf_stats: None,
            close_type: CloseType::Unknown,
            flow_source: FlowSource::Normal,
            is_active_service: false,
            queue_hash: 0,
            is_new_flow: false,
            reversed: false,
            tap_side: TapSide::Rest,
        }
    }
}

impl Default for Flow {
    fn default() -> (r: Self)
        ensures
            r.flow_key == FlowKey::default_value(),
            r.flow_metrics_peers[0] == FlowMetricsPeer::default_value(),
            r.flow_metrics_peers[1] == FlowMetricsPeer::default_value(),
            r.tunnel == TunnelField::default_value(),
            r.flow_id == 0 && r.syn_seq == 0 && r.synack_seq == 0,
            r.last_keepalive_seq == 0 && r.last_keepalive_ack == 0,
            r.start_time == 0 && r.end_time == 0 && r.duration == 0 && r.flow_stat_time == 0,
            r.vlan == 0 && r.eth_type == EthernetType::Llc && r.flow_perf_stats is None,
            r.close_type == CloseType::Unknown && r.flow_source == FlowSource::Normal,
            !r.is_active_service && r.queue_hash == 0 && !r.is_new_flow && !r.reversed,
            r.tap_side == TapSide::Rest,
    {
        Flow {
            flow_key: FlowKey::default(),
            flow_metrics_peers: [FlowMetricsPeer::default(), FlowMetricsPeer::default()],
            tunnel: TunnelField::default(),
            flow_id: 0,
            syn_seq: 0,
            synack_seq: 0,
            last_keepalive_seq: 0,
            last_keepalive_ack: 0,
            start_time: 0,
            end_time: 0,
            duration: 0,
            flow_stat_time: 0,
            vlan: 0,
            eth_type: EthernetType::Llc,
            flow_perf_stats: None,
            close_type: CloseType::Unknown,
            flow_source: FlowSource::Normal,
            is_active_service: false,
            queue_hash: 0,
            is_new_flow: false,
            reversed: false,
            tap_side: TapSide::Rest,
        }
    }
}

/// Reversing a flow that has statistics twice gives the flow back, but for the
/// observation point, which the first reversal forgets.
pub proof fn lemma_flow_reverse_involution(f: Flow)
    ensures
        f.spec_reversed(false).spec_reversed(false) == (Flow { tap_side: TapSide::Rest, ..f }),
        f.spec_reversed(false).reversed == !f.reversed,
        !f.spec_reversed(true).reversed,
{
    let twice = f.spec_reversed(false).spec_reversed(false);
    assert(twice.flow_metrics_peers =~= f.flow_metrics_peers);
    assert(twice.flow_key == f.flow_key);
    assert(twice.tunnel == f.tunnel);
}

/// The part of a flow identifier that tells the flows of one producer apart
/// within a minute: the bits 56 to 63 of the identifier, moved to the bits 24
/// to 31, above the 24 bits of the counter within a second.
pub open spec fn uniq_flow_id(flow_id: u64) -> u64 {
    ((flow_id >> 32) & 0xff00_0000) | (flow_id & COUNTER_FLOW_ID_MASK)
}

pub fn get_uniq_flow_id_in_one_minute(flow_id: u64) -> (r: u64)
    ensures
        r == uniq_flow_id(flow_id),
        r < 0x1_0000_0000,
{
    let r = ((flow_id >> 32) & 0xff00_0000) | (flow_id & COUNTER_FLOW_ID_MASK);
    assert(((flow_id >> 32) & 0xff00_0000) | (flow_id & 0x00ff_ffff) < 0x1_0000_0000u64)
        by (bit_vector);
    r
}


/// The observation points that one side of a flow gives by itself: the
/// direction where that side is the source, the direction where it is the
/// destination, and whether a second document that traces the addresses behind
/// a virtual address is wanted.
///
/// `l2_end` and `l3_end` say whether the side ends the link and the route;
/// `is_unicast` whether its link address is that of one station.
pub open spec fn side_direction(
    tap_type: TapType,
    tunnel: TunnelField,
    l2_end: bool,
    l3_end: bool,
    is_vip: bool,
    is_unicast: bool,
    is_local_mac: bool,
    is_local_ip: bool,
    l3_epc_id: i32,
    cloud_gateway_traffic: bool,
    trident_type: TridentType,
) -> (Direction, Direction, bool) {
    let is_ep = l2_end && l3_end;
    let c2s = (Direction::ClientToServer, Direction::ServerToClient, false);
    let node = (Direction::ClientNodeToServer, Direction::ServerNodeToClient, false);
    let hypervisor = (
        Direction::ClientHypervisorToServer,
        Direction::ServerHypervisorToClient,
        false,
    );
    let gateway = (Direction::ServerGatewayToClient, Direction::ClientGatewayToServer, false);
    let gateway_hypervisor = (
        Direction::ServerGatewayHypervisorToClient,
        Direction::ClientGatewayHypervisorToServer,
        false,
    );
    let nothing = (Direction::NoSide, Direction::NoSide, false);
    match trident_type {
        TridentType::TtDedicatedPhysicalMachine => {
            if tap_type != TapType::Tor {
                if l3_epc_id != EPC_FROM_INTERNET {
                    c2s
                } else {
                    nothing
                }
            } else if l2_end {
                if cloud_gateway_traffic {
                    gateway
                } else {
                    c2s
                }
            } else {
                nothing
            }
        },
        TridentType::TtHyperVCompute => {
            if l2_end {
                (
                    Direction::ClientHypervisorToServer,
                    Direction::ServerHypervisorToClient,
                    is_vip,
                )
            } else {
                nothing
            }
        },
        TridentType::TtHyperVNetwork => {
            if is_ep {
                hypervisor
            } else if l2_end && is_unicast {
                if !is_vip {
                    gateway_hypervisor
                } else {
                    (
                        Direction::ServerGatewayHypervisorToClient,
                        Direction::ClientGatewayHypervisorToServer,
                        tunnel.tier > 0,
                    )
                }
            } else {
                nothing
            }
        },
        TridentType::TtPublicCloud | TridentType::TtPhysicalMachine => {
            if is_ep {
                (Direction::ClientToServer, Direction::ServerToClient, is_vip)
            } else if l2_end && is_unicast {
                (Direction::ServerGatewayToClient, Direction::ClientGatewayToServer, is_vip)
            } else {
                nothing
            }
        },
        TridentType::TtHostPod | TridentType::TtVmPod => {
            if is_ep {
                if tunnel.tier == 0 {
                    c2s
                } else {
                    node
                }
            } else if l2_end {
                if is_local_ip || tunnel.tier > 0 {
                    node
                } else {
                    nothing
                }
            } else if l3_end && is_local_mac {
                node
            } else {
                nothing
            }
        },
        TridentType::TtProcess => {
            if is_ep {
                if tunnel.tier == 0 {
                    c2s
                } else if is_local_ip {
                    hypervisor
                } else {
                    nothing
                }
            } else if l2_end {
                if is_local_ip {
                    if tunnel.tier > 0 {
                        hypervisor
                    } else {
                        gateway
                    }
                } else if is_local_mac {
                    if tunnel.tier > 0 {
                        if tunnel.tunnel_type == TunnelType::Ipip {
                            hypervisor
                        } else {
                            gateway_hypervisor
                        }
                    } else {
                        nothing
                    }
                } else if l3_end {
                    if is_local_mac {
                        hypervisor
                    } else {
                        nothing
                    }
                } else if is_local_mac {
                    if is_local_ip || tunnel.tier > 0 {
                        hypervisor
                    } else {
                        gateway_hypervisor
                    }
                } else {
                    nothing
                }
            } else {
                nothing
            }
        },
        TridentType::TtVm => {
            if tunnel.tier == 0 && is_ep {
                c2s
            } else {
                nothing
            }
        },
        _ => nothing,
    }
}

fn direction_of_side(
    tap_type: TapType,
    tunnel: &TunnelField,
    l2_end: bool,
    l3_end: bool,
    is_vip: bool,
    is_unicast: bool,
    is_local_mac: bool,
    is_local_ip: bool,
    l3_epc_id: i32,
    cloud_gateway_traffic: bool,
    trident_type: TridentType,
) -> (r: (Direction, Direction, bool))
    ensures
        r == side_direction(
            tap_type,
            *tunnel,
            l2_end,
            l3_end,
            is_vip,
            is_unicast,
            is_local_mac,
            is_local_ip,
            l3_epc_id,
            cloud_gateway_traffic,
            trident_type,
        ),
{
    let is_ep = l2_end && l3_end;
    let c2s = (Direction::ClientToServer, Direction::ServerToClient, false);
    let node = (Direction::ClientNodeToServer, Direction::ServerNodeToClient, false);
    let hypervisor = (
        Direction::ClientHypervisorToServer,
        Direction::ServerHypervisorToClient,
        false,
    );
    let gateway = (Direction::ServerGatewayToClient, Direction::ClientGatewayToServer, false);
    let gateway_hypervisor = (
        Direction::ServerGatewayHypervisorToClient,
        Direction::ClientGatewayHypervisorToServer,
        false,
    );
    let nothing = (Direction::NoSide, Direction::NoSide, false);
    match trident_type {
        TridentType::TtDedicatedPhysicalMachine => {
            if tap_type != TapType::Tor {
                if l3_epc_id != EPC_FROM_INTERNET {
                    c2s
                } else {
                    nothing
                }
            } else if l2_end {
                if cloud_gateway_traffic {
                    gateway
                } else {
                    c2s
                }
            } else {
                nothing
            }
        },
        TridentType::TtHyperVCompute => {
            if l2_end {
                (
                    Direction::ClientHypervisorToServer,
                    Direction::ServerHypervisorToClient,
                    is_vip,
                )
            } else {
                nothing
            }
        },
        TridentType::TtHyperVNetwork => {
            if is_ep {
                hypervisor
            } else if l2_end && is_unicast {
                if !is_vip {
                    gateway_hypervisor
                } else {
                    (
                        Direction::ServerGatewayHypervisorToClient,
                        Direction::ClientGatewayHypervisorToServer,
                        tunnel.tier > 0,
                    )
                }
            } else {
                nothing
            }
        },
        TridentType::TtPublicCloud | TridentType::TtPhysicalMachine => {
            if is_ep {
                (Direction::ClientToServer, Direction::ServerToClient, is_vip)
            } else if l2_end && is_unicast {
                (Direction::ServerGatewayToClient, Direction::ClientGatewayToServer, is_vip)
            } else {
                nothing
            }
        },
        TridentType::TtHostPod | TridentType::TtVmPod => {
            if is_ep {
                if tunnel.tier == 0 {
                    c2s
                } else {
                    node
                }
            } else if l2_end {
                if is_local_ip || tunnel.tier > 0 {
                    node
                } else {
                    nothing
                }
            } else if l3_end && is_local_mac {
                node
            } else {
                nothing
            }
        },
        TridentType::TtProcess => {
            if is_ep {
                if tunnel.tier == 0 {
                    c2s
                } else if is_local_ip {
                    hypervisor
                } else {
                    nothing
                }
            } else if l2_end {
                if is_local_ip {
                    if tunnel.tier > 0 {
                        hypervisor
                    } else {
                        gateway
                    }
                } else if is_local_mac {
                    if tunnel.tier > 0 {
                        if tunnel.tunnel_type == TunnelType::Ipip {
                            hypervisor
                        } else {
                            gateway_hypervisor
                        }
                    } else {
                        nothing
                    }
                } else if l3_end {
                    if is_local_mac {
                        hypervisor
                    } else {
                        nothing
                    }
                } else if is_local_mac {
                    if is_local_ip || tunnel.tier > 0 {
                        hypervisor
                    } else {
                        gateway_hypervisor
                    }
                } else {
                    nothing
                }
            } else {
                nothing
            }
        },
        TridentType::TtVm => {
            if tunnel.tier == 0 && is_ep {
                c2s
            } else {
                nothing
            }
        },
        _ => nothing,
    }
}

/// Whether an agent of kind `trident_type` takes a flow between `mac_src` and
/// `mac_dst` for traffic of the host with itself.
pub open spec fn is_loopback_flow(key: FlowKey, trident_type: TridentType) -> bool {
    key.mac_src == key.mac_dst && (trident_type == TridentType::TtPublicCloud || trident_type
        == TridentType::TtPhysicalMachine || trident_type == TridentType::TtHostPod || trident_type
        == TridentType::TtVmPod)
}

/// What the source side of `flow` gives by itself.
pub open spec fn source_side(flow: Flow, trident_type: TridentType, cloud_gateway_traffic: bool) -> (
    Direction,
    Direction,
    bool,
) {
    let ep = flow.flow_metrics_peers[0];
    side_direction(
        flow.flow_key.tap_type,
        flow.tunnel,
        ep.is_l2_end,
        ep.is_l3_end,
        flow.flow_metrics_peers[0].is_vip || flow.flow_metrics_peers[1].is_vip,
        true,
        ep.is_local_mac,
        ep.is_local_ip,
        ep.l3_epc_id,
        cloud_gateway_traffic,
        trident_type,
    )
}

/// What the destination side of `flow` gives by itself.
pub open spec fn destination_side(
    flow: Flow,
    trident_type: TridentType,
    cloud_gateway_traffic: bool,
) -> (Direction, Direction, bool) {
    let ep = flow.flow_metrics_peers[1];
    side_direction(
        flow.flow_key.tap_type,
        flow.tunnel,
        ep.is_l2_end,
        ep.is_l3_end,
        flow.flow_metrics_peers[0].is_vip || flow.flow_metrics_peers[1].is_vip,
        flow.flow_key.mac_dst.spec_is_unicast(),
        ep.is_local_mac,
        ep.is_local_ip,
        ep.l3_epc_id,
        cloud_gateway_traffic,
        trident_type,
    )
}

/// The observation points of `flow` for an agent of kind `trident_type`: the
/// direction on the source side, the direction on the destination side, and
/// whether a tracing document is wanted.
///
/// A flow of the host with itself is local. Else each side gives a direction
/// by itself, and where both do, one gives way: a side that is client or server
/// itself or that ends the link goes before a side that is neither, and after
/// that the side with a local link address goes first.
pub open spec fn spec_direction(flow: Flow, trident_type: TridentType, cloud_gateway_traffic: bool) -> (
    Direction,
    Direction,
    bool,
) {
    if is_loopback_flow(flow.flow_key, trident_type) {
        (Direction::LocalToLocal, Direction::NoSide, false)
    } else {
        let src_ep = flow.flow_metrics_peers[0];
        let dst_ep = flow.flow_metrics_peers[1];
        let s = source_side(flow, trident_type, cloud_gateway_traffic);
        let d = destination_side(flow, trident_type, cloud_gateway_traffic);
        let src = s.0;
        let dst = d.1;
        let tracing = s.2 || d.2;
        if src != Direction::NoSide && dst != Direction::NoSide {
            if (src == Direction::ClientToServer || src_ep.is_l2_end) && dst
                != Direction::ServerToClient {
                (src, Direction::NoSide, tracing)
            } else if (dst == Direction::ServerToClient || dst_ep.is_l2_end) && src
                != Direction::ClientToServer {
                (Direction::NoSide, dst, tracing)
            } else if src_ep.is_local_mac {
                (src, Direction::NoSide, tracing)
            } else if dst_ep.is_local_mac {
                (Direction::NoSide, dst, tracing)
            } else {
                (src, dst, tracing)
            }
        } else {
            (src, dst, tracing)
        }
    }
}

/// The observation points of `flow`. `trident_type` must be a kind of agent
/// that captures traffic; `cloud_gateway_traffic` says whether the agent
/// mirrors the traffic of a cloud gateway.
pub fn get_direction(flow: &Flow, trident_type: TridentType, cloud_gateway_traffic: bool) -> (r: (
    Direction,
    Direction,
    bool,
))
    requires
        trident_type.captures(),
    ensures
        r == spec_direction(*flow, trident_type, cloud_gateway_traffic),
{
    let flow_key = flow.flow_key;
    if flow_key.mac_src == flow_key.mac_dst {
        match trident_type {
            TridentType::TtPublicCloud
            | TridentType::TtPhysicalMachine
            | TridentType::TtHostPod
            | TridentType::TtVmPod => {
                return (Direction::LocalToLocal, Direction::NoSide, false);
            },
            _ => (),
        }
    }
    let tunnel = flow.tunnel;
    let src_ep = flow.flow_metrics_peers[FLOW_METRICS_PEER_SRC];
    let dst_ep = flow.flow_metrics_peers[FLOW_METRICS_PEER_DST];
    let is_vip = src_ep.is_vip || dst_ep.is_vip;
    let s = direction_of_side(
        flow_key.tap_type,
        &tunnel,
        src_ep.is_l2_end,
        src_ep.is_l3_end,
        is_vip,
        true,
        src_ep.is_local_mac,
        src_ep.is_local_ip,
        src_ep.l3_epc_id,
        cloud_gateway_traffic,
        trident_type,
    );
    let d = direction_of_side(
        flow_key.tap_type,
        &tunnel,
        dst_ep.is_l2_end,
        dst_ep.is_l3_end,
        is_vip,
        flow_key.mac_dst.is_unicast(),
        dst_ep.is_local_mac,
        dst_ep.is_local_ip,
        dst_ep.l3_epc_id,
        cloud_gateway_traffic,
        trident_type,
    );
    let mut src_direct = s.0;
    let mut dst_direct = d.1;
    if src_direct != Direction::NoSide && dst_direct != Direction::NoSide {
        if (src_direct == Direction::ClientToServer || src_ep.is_l2_end) && dst_direct
            != Direction::ServerToClient {
            dst_direct = Direction::NoSide;
        } else if (dst_direct == Direction::ServerToClient || dst_ep.is_l2_end) && src_direct
            != Direction::ClientToServer {
            src_direct = Direction::NoSide;
        } else if src_ep.is_local_mac {
            dst_direct = Direction::NoSide;
        } else if dst_ep.is_local_mac {
            src_direct = Direction::NoSide;
        }
    }
    (src_direct, dst_direct, s.2 || d.2)
}

/// On each side a flow is seen from the client's end or from the server's end
/// as that side is the source or the destination; a tracing document is wanted
/// only where a side has a virtual address or the flow runs in a tunnel.
pub proof fn lemma_side_direction_sides(
    tap_type: TapType,
    tunnel: TunnelField,
    l2_end: bool,
    l3_end: bool,
    is_vip: bool,
    is_unicast: bool,
    is_local_mac: bool,
    is_local_ip: bool,
    l3_epc_id: i32,
    cloud_gateway_traffic: bool,
    trident_type: TridentType,
)
    ensures
        ({
            let r = side_direction(
                tap_type,
                tunnel,
                l2_end,
                l3_end,
                is_vip,
                is_unicast,
                is_local_mac,
                is_local_ip,
                l3_epc_id,
                cloud_gateway_traffic,
                trident_type,
            );
            &&& (r.0 == Direction::NoSide) == (r.1 == Direction::NoSide)
            &&& r.0 != Direction::LocalToLocal && r.1 != Direction::LocalToLocal
            &&& r.2 ==> is_vip || tunnel.tier > 0
            &&& r.0 == Direction::NoSide ==> !r.2
        }),
{
}

impl Flow {
    /// Settles the observation point of a flow whose point is not settled yet:
    /// where just one side gives a direction, the point is the one that this
    /// direction stands for.
    pub open spec fn with_tap_side(self, trident_type: TridentType, cloud_gateway_traffic: bool) -> Flow {
        let d = spec_direction(self, trident_type, cloud_gateway_traffic);
        if self.tap_side != TapSide::Rest {
            self
        } else if d.0 != Direction::NoSide && d.1 == Direction::NoSide {
            Flow { tap_side: TapSide::of_direction(d.0), ..self }
        } else if d.0 == Direction::NoSide && d.1 != Direction::NoSide {
            Flow { tap_side: TapSide::of_direction(d.1), ..self }
        } else {
            self
        }
    }

    pub fn set_tap_side(&mut self, trident_type: TridentType, cloud_gateway_traffic: bool)
        requires
            trident_type.captures(),
        ensures
            *final(self) == old(self).with_tap_side(trident_type, cloud_gateway_traffic),
    {
        if self.tap_side != TapSide::Rest {
            return ;
        }
        let d = get_direction(&*self, trident_type, cloud_gateway_traffic);
        if d.0 != Direction::NoSide && d.1 == Direction::NoSide {
            *self = Flow { tap_side: TapSide::from_direction(d.0), ..*self };
        } else if d.0 == Direction::NoSide && d.1 != Direction::NoSide {
            *self = Flow { tap_side: TapSide::from_direction(d.1), ..*self };
        }
    }
}


/// A key as it stands in a line of keys and values: a comma, the key in
/// double quotes, and a colon.
pub open spec fn key_text(key: Seq<char>) -> Seq<char> {
    ",\""@ + key + "\":"@
}

/// The text of a truth value.
pub open spec fn bool_text(value: bool) -> Seq<char> {
    if value {
        "true"@
    } else {
        "false"@
    }
}

/// Appends the key `key`.
pub fn append_key(dst: &mut String, key: &str)
    ensures
        final(dst)@ == old(dst)@ + key_text(key@),
{
    dst.append(",\"");
    dst.append(key);
    dst.append("\":");
    assert(dst@ =~= old(dst)@ + key_text(key@));
}

/// Appends the key that `key1` and `key2` make together.
pub fn append_keys(dst: &mut String, key1: &str, key2: &str)
    ensures
        final(dst)@ == old(dst)@ + key_text(key1@ + key2@),
{
    dst.append(",\"");
    dst.append(key1);
    dst.append(key2);
    dst.append("\":");
    assert(dst@ =~= old(dst)@ + key_text(key1@ + key2@));
}

/// Appends the key `key` and the value `value` as it stands.
pub fn append_key_value(dst: &mut String, key: &str, value: &str)
    ensures
        final(dst)@ == old(dst)@ + key_text(key@) + value@,
{
    append_key(dst, key);
    dst.append(value);
}

/// Appends the key that `key1` and `key2` make together and the value
/// `value` as it stands.
pub fn append_keys_value(dst: &mut String, key1: &str, key2: &str, value: &str)
    ensures
        final(dst)@ == old(dst)@ + key_text(key1@ + key2@) + value@,
{
    append_keys(dst, key1, key2);
    dst.append(value);
}

/// Appends the key `key` and the value `value` in double quotes.
pub fn append_key_string(dst: &mut String, key: &str, value: &str)
    ensures
        final(dst)@ == old(dst)@ + key_text(key@) + seq!['"'] + value@ + seq!['"'],
{
    append_key(dst, key);
    crate::outside::push_char(dst, '"');
    dst.append(value);
    crate::outside::push_char(dst, '"');
    assert(dst@ =~= old(dst)@ + key_text(key@) + seq!['"'] + value@ + seq!['"']);
}

/// Appends the key `key` and a truth value.
pub fn append_key_bool(dst: &mut String, key: &str, value: bool)
    ensures
        final(dst)@ == old(dst)@ + key_text(key@) + bool_text(value),
{
    append_key(dst, key);
    if value {
        dst.append("true");
    } else {
        dst.append("false");
    }
}

/// Appends the key that `key1` and `key2` make together and a truth value.
pub fn append_keys_bool(dst: &mut String, key1: &str, key2: &str, value: bool)
    ensures
        final(dst)@ == old(dst)@ + key_text(key1@ + key2@) + bool_text(value),
{
    append_keys(dst, key1, key2);
    if value {
        dst.append("true");
    } else {
        dst.append("false");
    }
}

/// A key with a number as its value.
pub open spec fn number_entry(key: Seq<char>, value: int) -> Seq<char> {
    key_text(key) + decimal(value as nat)
}

/// A key with a text in double quotes as its value.
pub open spec fn string_entry(key: Seq<char>, value: Seq<char>) -> Seq<char> {
    key_text(key) + seq!['"'] + value + seq!['"']
}

/// Appends the key `key` and a number in decimal.
pub fn append_key_number(dst: &mut String, key: &str, value: u64)
    ensures
        final(dst)@ == old(dst)@ + number_entry(key@, value as int),
{
    append_key(dst, key);
    append_decimal(dst, value);
    assert(dst@ =~= old(dst)@ + number_entry(key@, value as int));
}

impl L4Protocol {
    pub open spec fn name_text(self) -> Seq<char> {
        match self {
            L4Protocol::Unknown => "Unknown"@,
            L4Protocol::Tcp => "Tcp"@,
            L4Protocol::Udp => "Udp"@,
        }
    }

    /// The name of the protocol.
    pub fn name(self) -> (r: &'static str)
        ensures
            r@ == self.name_text(),
    {
        match self {
            L4Protocol::Unknown => "Unknown",
            L4Protocol::Tcp => "Tcp",
            L4Protocol::Udp => "Udp",
        }
    }
}

impl L7Protocol {
    pub open spec fn name_text(self) -> Seq<char> {
        match self {
            L7Protocol::Unknown => "Unknown"@,
            L7Protocol::Other => "Other"@,
            L7Protocol::Http1 => "Http1"@,
            L7Protocol::Http2 => "Http2"@,
            L7Protocol::Http1TLS => "Http1TLS"@,
            L7Protocol::Http2TLS => "Http2TLS"@,
            L7Protocol::Dubbo => "Dubbo"@,
            L7Protocol::Mysql => "Mysql"@,
            L7Protocol::Redis => "Redis"@,
            L7Protocol::Kafka => "Kafka"@,
            L7Protocol::Mqtt => "Mqtt"@,
            L7Protocol::Dns => "Dns"@,
            L7Protocol::Max => "Max"@,
        }
    }

    /// The name of the protocol.
    pub fn name(self) -> (r: &'static str)
        ensures
            r@ == self.name_text(),
    {
        match self {
            L7Protocol::Unknown => "Unknown",
            L7Protocol::Other => "Other",
            L7Protocol::Http1 => "Http1",
            L7Protocol::Http2 => "Http2",
            L7Protocol::Http1TLS => "Http1TLS",
            L7Protocol::Http2TLS => "Http2TLS",
            L7Protocol::Dubbo => "Dubbo",
            L7Protocol::Mysql => "Mysql",
            L7Protocol::Redis => "Redis",
            L7Protocol::Kafka => "Kafka",
            L7Protocol::Mqtt => "Mqtt",
            L7Protocol::Dns => "Dns",
            L7Protocol::Max => "Max",
        }
    }
}

impl L7PerfStats {
    /// The text `d` with the metrics behind it, as keys and values.
    pub open spec fn kv_appended(self, d: Seq<char>) -> Seq<char> {
        let d = d + number_entry("l7_request"@, self.request_count as int);
        let d = d + number_entry("l7_response"@, self.response_count as int);
        let d = d + number_entry("l7_client_err"@, self.err_client_count as int);
        let d = d + number_entry("l7_server_err"@, self.err_server_count as int);
        let d = d + number_entry("l7_server_timeout"@, self.err_timeout as int);
        let d = d + number_entry("rrt_count"@, self.rrt_count as int);
        let d = d + number_entry("rrt_sum"@, self.rrt_sum as int);
        let d = d + number_entry("rrt_max"@, self.rrt_max as int);
        d
    }

    /// Appends the metrics as keys and values.
    pub fn to_kv_string(&self, dst: &mut String)
        ensures
            final(dst)@ == self.kv_appended(old(dst)@),
    {
        append_key_number(dst, "l7_request", self.request_count as u64);
        append_key_number(dst, "l7_response", self.response_count as u64);
        append_key_number(dst, "l7_client_err", self.err_client_count as u64);
        append_key_number(dst, "l7_server_err", self.err_server_count as u64);
        append_key_number(dst, "l7_server_timeout", self.err_timeout as u64);
        append_key_number(dst, "rrt_count", self.rrt_count as u64);
        append_key_number(dst, "rrt_sum", self.rrt_sum as u64);
        append_key_number(dst, "rrt_max", self.rrt_max as u64);
    }
}

impl TcpPerfStats {
    /// The text `d` with the handshake time and the maxima of the delays behind it.
    #[verifier::opaque]
    pub open spec fn kv_maxima_appended(self, d: Seq<char>) -> Seq<char> {
        let d = d + number_entry("rtt"@, self.rtt as int);
        let d = d + number_entry("rtt_client_max"@, self.rtt_client_max as int);
        let d = d + number_entry("rtt_server_max"@, self.rtt_server_max as int);
        let d = d + number_entry("srt_max"@, self.srt_max as int);
        let d = d + number_entry("art_max"@, self.art_max as int);
        let d = d + number_entry("cit_max"@, self.cit_max as int);
        d
    }

    fn maxima_to_kv_string(&self, dst: &mut String)
        ensures
            final(dst)@ == self.kv_maxima_appended(old(dst)@),
    {
        reveal(TcpPerfStats::kv_maxima_appended);
        append_key_number(dst, "rtt", self.rtt as u64);
        append_key_number(dst, "rtt_client_max", self.rtt_client_max as u64);
        append_key_number(dst, "rtt_server_max", self.rtt_server_max as u64);
        append_key_number(dst, "srt_max", self.srt_max as u64);
        append_key_number(dst, "art_max", self.art_max as u64);
        append_key_number(dst, "cit_max", self.cit_max as u64);
    }

    /// The text `d` with the sums of the delays behind it.
    #[verifier::opaque]
    pub open spec fn kv_sums_appended(self, d: Seq<char>) -> Seq<char> {
        let d = d + number_entry("rtt_client_sum"@, self.rtt_client_sum as int);
        let d = d + number_entry("rtt_server_sum"@, self.rtt_server_sum as int);
        let d = d + number_entry("srt_sum"@, self.srt_sum as int);
        let d = d + number_entry("art_sum"@, self.art_sum as int);
        let d = d + number_entry("cit_sum"@, self.cit_sum as int);
        d
    }

    fn sums_to_kv_string(&self, dst: &mut String)
        ensures
            final(dst)@ == self.kv_sums_appended(old(dst)@),
    {
        reveal(TcpPerfStats::kv_sums_appended);
        append_key_number(dst, "rtt_client_sum", self.rtt_client_sum as u64);
        append_key_number(dst, "rtt_server_sum", self.rtt_server_sum as u64);
        append_key_number(dst, "srt_sum", self.srt_sum as u64);
        append_key_number(dst, "art_sum", self.art_sum as u64);
        append_key_number(dst, "cit_sum", self.cit_sum as u64);
    }

    /// The text `d` with the counts of the delays; the value under `cit_count` is the sum of the client idle times behind it.
    #[verifier::opaque]
    pub open spec fn kv_counts_appended(self, d: Seq<char>) -> Seq<char> {
        let d = d + number_entry("rtt_client_count"@, self.rtt_client_count as int);
        let d = d + number_entry("rtt_server_count"@, self.rtt_server_count as int);
        let d = d + number_entry("srt_count"@, self.srt_count as int);
        let d = d + number_entry("art_count"@, self.art_count as int);
        let d = d + number_entry("cit_count"@, self.cit_sum as int);
        d
    }

    fn counts_to_kv_string(&self, dst: &mut String)
        ensures
            final(dst)@ == self.kv_counts_appended(old(dst)@),
    {
        reveal(TcpPerfStats::kv_counts_appended);
        append_key_number(dst, "rtt_client_count", self.rtt_client_count as u64);
        append_key_number(dst, "rtt_server_count", self.rtt_server_count as u64);
        append_key_number(dst, "srt_count", self.srt_count as u64);
        append_key_number(dst, "art_count", self.art_count as u64);
        append_key_number(dst, "cit_count", self.cit_sum as u64);
    }

    /// The text `d` with the counts of the handshake packets behind it.
    #[verifier::opaque]
    pub open spec fn kv_handshakes_appended(self, d: Seq<char>) -> Seq<char> {
        let d = d + number_entry("syn_count"@, self.syn_count as int);
        let d = d + number_entry("synack_count"@, self.synack_count as int);
        let d = d + number_entry("retrans_syn_count"@, self.retrans_syn_count as int);
        let d = d + number_entry("retrans_synack_count"@, self.retrans_synack_count as int);
        d
    }

    fn handshakes_to_kv_string(&self, dst: &mut String)
        ensures
            final(dst)@ == self.kv_handshakes_appended(old(dst)@),
    {
        reveal(TcpPerfStats::kv_handshakes_appended);
        append_key_number(dst, "syn_count", self.syn_count as u64);
        append_key_number(dst, "synack_count", self.synack_count as u64);
        append_key_number(dst, "retrans_syn_count", self.retrans_syn_count as u64);
        append_key_number(dst, "retrans_synack_count", self.retrans_synack_count as u64);
    }

    /// The text `d` with the counters of the two sides behind it.
    #[verifier::opaque]
    pub open spec fn kv_peers_appended(self, d: Seq<char>) -> Seq<char> {
        let d = d + number_entry("retrans_tx"@, self.counts_peers[0].retrans_count as int);
        let d = d + number_entry("retrans_rx"@, self.counts_peers[1].retrans_count as int);
        let d = d + number_entry("zero_win_tx"@, self.counts_peers[0].zero_win_count as int);
        let d = d + number_entry("zero_win_rx"@, self.counts_peers[1].zero_win_count as int);
        d
    }

    fn peers_to_kv_string(&self, dst: &mut String)
        ensures
            final(dst)@ == self.kv_peers_appended(old(dst)@),
    {
        reveal(TcpPerfStats::kv_peers_appended);
        append_key_number(dst, "retrans_tx", self.counts_peers[0].retrans_count as u64);
        append_key_number(dst, "retrans_rx", self.counts_peers[1].retrans_count as u64);
        append_key_number(dst, "zero_win_tx", self.counts_peers[0].zero_win_count as u64);
        append_key_number(dst, "zero_win_rx", self.counts_peers[1].zero_win_count as u64);
    }

    /// The text `d` with the metrics behind it, as keys and values.
    pub open spec fn kv_appended(self, d: Seq<char>) -> Seq<char> {
        self.kv_peers_appended(
            self.kv_handshakes_appended(
                self.kv_counts_appended(self.kv_sums_appended(self.kv_maxima_appended(d))),
            ),
        )
    }

    /// Appends the metrics as keys and values.
    pub fn to_kv_string(&self, dst: &mut String)
        ensures
            final(dst)@ == self.kv_appended(old(dst)@),
    {
        self.maxima_to_kv_string(dst);
        self.sums_to_kv_string(dst);
        self.counts_to_kv_string(dst);
        self.handshakes_to_kv_string(dst);
        self.peers_to_kv_string(dst);
    }
}

impl FlowPerfStats {
    /// The text `d` with the performance data behind it, as keys and values.
    pub open spec fn kv_appended(self, d: Seq<char>) -> Seq<char> {
        self.l7.kv_appended(self.tcp.kv_appended(d)) + string_entry(
            "l4_protocol"@,
            self.l4_protocol.name_text(),
        ) + string_entry("l7_protocol"@, self.l7_protocol.name_text())
    }

    /// Appends the performance data as keys and values.
    pub fn to_kv_string(&self, dst: &mut String)
        ensures
            final(dst)@ == self.kv_appended(old(dst)@),
    {
        self.tcp.to_kv_string(dst);
        self.l7.to_kv_string(dst);
        let ghost mid = dst@;
        append_key_string(dst, "l4_protocol", self.l4_protocol.name());
        assert(dst@ =~= mid + string_entry("l4_protocol"@, self.l4_protocol.name_text()));
        let ghost mid2 = dst@;
        append_key_string(dst, "l7_protocol", self.l7_protocol.name());
        assert(dst@ =~= mid2 + string_entry("l7_protocol"@, self.l7_protocol.name_text()));
    }
}

} // verus!
