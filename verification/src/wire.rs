//! The records as they go out on the wire: the messages of the flow log,
//! field for field. Addresses go out as numbers: an IPv4 address as 32 bits, an
//! IPv6 address as sixteen bytes, and which of the two a record holds is said
//! by a flag of its own. Times go out in nanoseconds.

use vstd::prelude::*;
use vstd::string::StringExecFns;
use crate::consts::NANOS_PER_MICRO;
use crate::dns::DnsInfo;
use crate::enums::{
    EthernetType, IpProtocol, TapSide, TunnelType,
};
use crate::flow::{
    Flow, FlowKey, FlowMetricsPeer, FlowPerfStats, L7PerfStats, TcpPerfCountsPeer, TcpPerfStats,
    TunnelField,
};
use crate::mqtt::{MqttInfo, MqttTopic, PacketKind};
use crate::mysql::MysqlInfo;
use crate::net::IpAddr;
use crate::protocol_logs::{AppProtoHead, AppProtoLogsBaseInfo, AppProtoLogsData, AppProtoLogsInfo};
use crate::redis::RedisInfo;

verus! {

/// The sixteen bytes of an IPv6 address, first byte first.
pub open spec fn octets16(v: u128) -> [u8; 16] {
    [
        (v / 0x1000000000000000000000000000000) as u8,
        (v / 0x10000000000000000000000000000 % 0x100) as u8,
        (v / 0x100000000000000000000000000 % 0x100) as u8,
        (v / 0x1000000000000000000000000 % 0x100) as u8,
        (v / 0x10000000000000000000000 % 0x100) as u8,
        (v / 0x100000000000000000000 % 0x100) as u8,
        (v / 0x1000000000000000000 % 0x100) as u8,
        (v / 0x10000000000000000 % 0x100) as u8,
        (v / 0x100000000000000 % 0x100) as u8,
        (v / 0x1000000000000 % 0x100) as u8,
        (v / 0x10000000000 % 0x100) as u8,
        (v / 0x100000000 % 0x100) as u8,
        (v / 0x1000000 % 0x100) as u8,
        (v / 0x10000 % 0x100) as u8,
        (v / 0x100 % 0x100) as u8,
        (v % 0x100) as u8,
    ]
}

fn octets16_of(v: u128) -> (r: [u8; 16])
    ensures
        r == octets16(v),
{
    [
        (v / 0x1000000000000000000000000000000) as u8,
        (v / 0x10000000000000000000000000000 % 0x100) as u8,
        (v / 0x100000000000000000000000000 % 0x100) as u8,
        (v / 0x1000000000000000000000000 % 0x100) as u8,
        (v / 0x10000000000000000000000 % 0x100) as u8,
        (v / 0x100000000000000000000 % 0x100) as u8,
        (v / 0x1000000000000000000 % 0x100) as u8,
        (v / 0x10000000000000000 % 0x100) as u8,
        (v / 0x100000000000000 % 0x100) as u8,
        (v / 0x1000000000000 % 0x100) as u8,
        (v / 0x10000000000 % 0x100) as u8,
        (v / 0x100000000 % 0x100) as u8,
        (v / 0x1000000 % 0x100) as u8,
        (v / 0x10000 % 0x100) as u8,
        (v / 0x100 % 0x100) as u8,
        (v % 0x100) as u8,
    ]
}

/// The IPv4 address of `ip`, or the unspecified one where it is of the other
/// family.
pub open spec fn v4_of(ip: IpAddr) -> u32 {
    match ip {
        IpAddr::V4(v) => v,
        IpAddr::V6(_) => 0,
    }
}

/// The bytes of the IPv6 address of `ip`, or of the unspecified one where it
/// is of the other family.
pub open spec fn v6_of(ip: IpAddr) -> [u8; 16] {
    match ip {
        IpAddr::V4(_) => octets16(0),
        IpAddr::V6(v) => octets16(v),
    }
}

fn v4_part(ip: IpAddr) -> (r: u32)
    ensures
        r == v4_of(ip),
{
    match ip {
        IpAddr::V4(v) => v,
        IpAddr::V6(_) => 0,
    }
}

fn v6_part(ip: IpAddr) -> (r: [u8; 16])
    ensures
        r == v6_of(ip),
{
    match ip {
        IpAddr::V4(_) => octets16_of(0),
        IpAddr::V6(v) => octets16_of(v),
    }
}

/// The code of an observation point on the wire.
pub open spec fn tap_side_code(t: TapSide) -> u32 {
    match t {
        TapSide::Rest => 0,
        TapSide::Client => 1,
        TapSide::Server => 2,
        TapSide::Local => 4,
        TapSide::ClientNode => 9,
        TapSide::ServerNode => 10,
        TapSide::ClientHypervisor => 17,
        TapSide::ServerHypervisor => 18,
        TapSide::ClientGatewayHypervisor => 33,
        TapSide::ServerGatewayHypervisor => 34,
        TapSide::ClientGateway => 65,
        TapSide::ServerGateway => 66,
        TapSide::ClientProcess => 129,
        TapSide::ServerProcess => 130,
    }
}

fn tap_side_code_of(t: TapSide) -> (r: u32)
    ensures
        r == tap_side_code(t),
{
    match t {
        TapSide::Rest => 0,
        TapSide::Client => 1,
        TapSide::Server => 2,
        TapSide::Local => 4,
        TapSide::ClientNode => 9,
        TapSide::ServerNode => 10,
        TapSide::ClientHypervisor => 17,
        TapSide::ServerHypervisor => 18,
        TapSide::ClientGatewayHypervisor => 33,
        TapSide::ServerGatewayHypervisor => 34,
        TapSide::ClientGateway => 65,
        TapSide::ServerGateway => 66,
        TapSide::ClientProcess => 129,
        TapSide::ServerProcess => 130,
    }
}

/// The wire form of a flow key.
#[derive(Clone, Copy, Debug, PartialEq, Eq)]
pub struct WireFlowKey {
    pub vtap_id: u32,
    pub tap_type: u32,
    pub tap_port: u64,
    pub mac_src: u64,
    pub mac_dst: u64,
    pub ip_src: u32,
    pub ip_dst: u32,
    pub ip6_src: [u8; 16],
    pub ip6_dst: [u8; 16],
    pub port_src: u32,
    pub port_dst: u32,
    pub proto: u32,
}

impl FlowKey {
    pub open spec fn wire(self) -> WireFlowKey {
        WireFlowKey {
            vtap_id: self.vtap_id as u32,
            tap_type: self.tap_type.spec_code() as u32,
            tap_port: self.tap_port.value,
            mac_src: self.mac_src.value,
            mac_dst: self.mac_dst.value,
            ip_src: v4_of(self.ip_src),
            ip_dst: v4_of(self.ip_dst),
            ip6_src: v6_of(self.ip_src),
            ip6_dst: v6_of(self.ip_dst),
            port_src: self.port_src as u32,
            port_dst: self.port_dst as u32,
            proto: self.proto.spec_code() as u32,
        }
    }

    /// The key as it goes out. The two addresses must be of one family.
    pub fn to_wire(&self) -> (r: WireFlowKey)
        requires
            self.wf(),
        ensures
            r == self.wire(),
    {
        WireFlowKey {
            vtap_id: self.vtap_id as u32,
            tap_type: self.tap_type.code() as u32,
            tap_port: self.tap_port.value,
            mac_src: self.mac_src.value,
            mac_dst: self.mac_dst.value,
            ip_src: v4_part(self.ip_src),
            ip_dst: v4_part(self.ip_dst),
            ip6_src: v6_part(self.ip_src),
            ip6_dst: v6_part(self.ip_dst),
            port_src: self.port_src as u32,
            port_dst: self.port_dst as u32,
            proto: self.proto.code() as u32,
        }
    }
}

/// The wire form of a tunnel.
#[derive(Clone, Copy, Debug, PartialEq, Eq, Structural)]
pub struct WireTunnelField {
    pub tx_ip0: u32,
    pub tx_ip1: u32,
    pub rx_ip0: u32,
    pub rx_ip1: u32,
    pub tx_mac0: u64,
    pub tx_mac1: u64,
    pub rx_mac0: u64,
    pub rx_mac1: u64,
    pub tx_id: u32,
    pub rx_id: u32,
    pub tunnel_type: u32,
    pub tier: u32,
    pub is_ipv6: u32,
}

impl TunnelField {
    pub open spec fn wire(self) -> WireTunnelField {
        WireTunnelField {
            tx_ip0: self.tx_ip0,
            tx_ip1: self.tx_ip1,
            rx_ip0: self.rx_ip0,
            rx_ip1: self.rx_ip1,
            tx_mac0: self.tx_mac0 as u64,
            tx_mac1: self.tx_mac1 as u64,
            rx_mac0: self.rx_mac0 as u64,
            rx_mac1: self.rx_mac1 as u64,
            tx_id: self.tx_id,
            rx_id: self.rx_id,
            tunnel_type: self.tunnel_type.spec_code() as u32,
            tier: self.tier as u32,
            is_ipv6: 0,
        }
    }

    /// The tunnel as it goes out.
    pub fn to_wire(&self) -> (r: WireTunnelField)
        ensures
            r == self.wire(),
    {
        WireTunnelField {
            tx_ip0: self.tx_ip0,
            tx_ip1: self.tx_ip1,
            rx_ip0: self.rx_ip0,
            rx_ip1: self.rx_ip1,
            tx_mac0: self.tx_mac0 as u64,
            tx_mac1: self.tx_mac1 as u64,
            rx_mac0: self.rx_mac0 as u64,
            rx_mac1: self.rx_mac1 as u64,
            tx_id: self.tx_id,
            rx_id: self.rx_id,
            tunnel_type: self.tunnel_type.code() as u32,
            tier: self.tier as u32,
            is_ipv6: 0,
        }
    }
}

/// The wire form of the TCP metrics.
#[derive(Clone, Copy, Debug, PartialEq, Eq, Structural)]
pub struct WireTcpPerfStats {
    pub rtt_client_max: u32,
    pub rtt_server_max: u32,
    pub srt_max: u32,
    pub art_max: u32,
    pub rtt: u32,
    pub rtt_client_sum: u32,
    pub rtt_server_sum: u32,
    pub srt_sum: u32,
    pub art_sum: u32,
    pub rtt_client_count: u32,
    pub rtt_server_count: u32,
    pub srt_count: u32,
    pub art_count: u32,
    pub counts_peer_tx: TcpPerfCountsPeer,
    pub counts_peer_rx: TcpPerfCountsPeer,
    pub total_retrans_count: u32,
    pub cit_count: u32,
    pub cit_sum: u32,
    pub cit_max: u32,
    pub syn_count: u32,
    pub synack_count: u32,
}

impl TcpPerfStats {
    pub open spec fn wire(self) -> WireTcpPerfStats {
        WireTcpPerfStats {
            rtt_client_max: self.rtt_client_max,
            rtt_server_max: self.rtt_server_max,
            srt_max: self.srt_max,
            art_max: self.art_max,
            rtt: self.rtt,
            rtt_client_sum: self.rtt_client_sum,
            rtt_server_sum: self.rtt_server_sum,
            srt_sum: self.srt_sum,
            art_sum: self.art_sum,
            rtt_client_count: self.rtt_client_count,
            rtt_server_count: self.rtt_server_count,
            srt_count: self.srt_count,
            art_count: self.art_count,
            counts_peer_tx: self.counts_peers[0],
            counts_peer_rx: self.counts_peers[1],
            total_retrans_count: self.total_retrans_count,
            cit_count: self.cit_count,
            cit_sum: self.cit_sum,
            cit_max: self.cit_max,
            syn_count: self.syn_count,
            synack_count: self.synack_count,
        }
    }

    /// The metrics as they go out.
    pub fn to_wire(&self) -> (r: WireTcpPerfStats)
        ensures
            r == self.wire(),
    {
        WireTcpPerfStats {
            rtt_client_max: self.rtt_client_max,
            rtt_server_max: self.rtt_server_max,
            srt_max: self.srt_max,
            art_max: self.art_max,
            rtt: self.rtt,
            rtt_client_sum: self.rtt_client_sum,
            rtt_server_sum: self.rtt_server_sum,
            srt_sum: self.srt_sum,
            art_sum: self.art_sum,
            rtt_client_count: self.rtt_client_count,
            rtt_server_count: self.rtt_server_count,
            srt_count: self.srt_count,
            art_count: self.art_count,
            counts_peer_tx: self.counts_peers[0],
            counts_peer_rx: self.counts_peers[1],
            total_retrans_count: self.total_retrans_count,
            cit_count: self.cit_count,
            cit_sum: self.cit_sum,
            cit_max: self.cit_max,
            syn_count: self.syn_count,
            synack_count: self.synack_count,
        }
    }
}

/// The wire form of the performance data of a flow.
#[derive(Clone, Copy, Debug, PartialEq, Eq, Structural)]
pub struct WireFlowPerfStats {
    pub tcp: WireTcpPerfStats,
    pub l7: L7PerfStats,
    pub l4_protocol: u32,
    pub l7_protocol: u32,
}

impl FlowPerfStats {
    pub open spec fn wire(self) -> WireFlowPerfStats {
        WireFlowPerfStats {
            tcp: self.tcp.wire(),
            l7: self.l7,
            l4_protocol: self.l4_protocol.spec_code() as u32,
            l7_protocol: self.l7_protocol.spec_code() as u32,
        }
    }

    /// The performance data as it goes out.
    pub fn to_wire(&self) -> (r: WireFlowPerfStats)
        ensures
            r == self.wire(),
    {
        WireFlowPerfStats {
            tcp: self.tcp.to_wire(),
            l7: self.l7,
            l4_protocol: self.l4_protocol.code() as u32,
            l7_protocol: self.l7_protocol.code() as u32,
        }
    }
}

/// The number of a truth value on the wire.
pub open spec fn flag(b: bool) -> u32 {
    if b {
        1
    } else {
        0
    }
}

fn flag_of(b: bool) -> (r: u32)
    ensures
        r == flag(b),
{
    if b {
        1
    } else {
        0
    }
}

/// The wire form of one side of a flow.
#[derive(Clone, Copy, Debug, PartialEq, Eq, Structural)]
pub struct WireFlowMetricsPeer {
    pub byte_count: u64,
    pub l3_byte_count: u64,
    pub l4_byte_count: u64,
    pub packet_count: u64,
    pub total_byte_count: u64,
    pub total_packet_count: u64,
    pub first: u64,
    pub last: u64,
    pub l3_epc_id: i32,
    pub is_l2_end: u32,
    pub is_l3_end: u32,
    pub is_active_host: u32,
    pub is_device: u32,
    pub tcp_flags: u32,
    pub is_vip_interface: u32,
    pub is_vip: u32,
}

impl FlowMetricsPeer {
    pub open spec fn wire(self) -> WireFlowMetricsPeer {
        WireFlowMetricsPeer {
            byte_count: self.byte_count,
            l3_byte_count: self.l3_byte_count,
            l4_byte_count: self.l4_byte_count,
            packet_count: self.packet_count,
            total_byte_count: self.total_byte_count,
            total_packet_count: self.total_packet_count,
            first: self.first,
            last: self.last,
            l3_epc_id: self.l3_epc_id,
            is_l2_end: flag(self.is_l2_end),
            is_l3_end: flag(self.is_l3_end),
            is_active_host: flag(self.is_active_host),
            is_device: flag(self.is_device),
            tcp_flags: self.tcp_flags.bits as u32,
            is_vip_interface: flag(self.is_vip_interface),
            is_vip: flag(self.is_vip),
        }
    }

    /// The side as it goes out.
    pub fn to_wire(&self) -> (r: WireFlowMetricsPeer)
        ensures
            r == self.wire(),
    {
        WireFlowMetricsPeer {
            byte_count: self.byte_count,
            l3_byte_count: self.l3_byte_count,
            l4_byte_count: self.l4_byte_count,
            packet_count: self.packet_count,
            total_byte_count: self.total_byte_count,
            total_packet_count: self.total_packet_count,
            first: self.first,
            last: self.last,
            l3_epc_id: self.l3_epc_id,
            is_l2_end: flag_of(self.is_l2_end),
            is_l3_end: flag_of(self.is_l3_end),
            is_active_host: flag_of(self.is_active_host),
            is_device: flag_of(self.is_device),
            tcp_flags: self.tcp_flags.bits as u32,
            is_vip_interface: flag_of(self.is_vip_interface),
            is_vip: flag_of(self.is_vip),
        }
    }
}

/// The wire form of a flow. A flow without a tunnel goes out without one, a
/// flow without performance data without any.
#[derive(Clone, Copy, Debug, PartialEq, Eq)]
pub struct WireFlow {
    pub flow_key: WireFlowKey,
    pub metrics_peer_src: WireFlowMetricsPeer,
    pub metrics_peer_dst: WireFlowMetricsPeer,
    pub tunnel: Option<WireTunnelField>,
    pub flow_id: u64,
    pub start_time: u64,
    pub end_time: u64,
    pub duration: u64,
    pub eth_type: u32,
    pub vlan: u32,
    pub has_perf_stats: u32,
    pub perf_stats: Option<WireFlowPerfStats>,
    pub close_type: u32,
    pub flow_source: u32,
    pub is_active_service: u32,
    pub queue_hash: u32,
    pub is_new_flow: u32,
    pub tap_side: u32,
    pub syn_seq: u32,
    pub synack_seq: u32,
    pub last_keepalive_seq: u32,
    pub last_keepalive_ack: u32,
}

impl Flow {
    pub open spec fn wire(self) -> WireFlow {
        WireFlow {
            flow_key: self.flow_key.wire(),
            metrics_peer_src: self.flow_metrics_peers[0].wire(),
            metrics_peer_dst: self.flow_metrics_peers[1].wire(),
            tunnel: if self.tunnel.tunnel_type == TunnelType::NoTunnel {
                None
            } else {
                Some(self.tunnel.wire())
            },
            flow_id: self.flow_id,
            start_time: self.start_time,
            end_time: self.end_time,
            duration: self.duration,
            eth_type: self.eth_type.spec_code() as u32,
            vlan: self.vlan as u32,
            has_perf_stats: flag(self.flow_perf_stats is Some),
            perf_stats: match self.flow_perf_stats {
                Some(p) => Some(p.wire()),
                None => None,
            },
            close_type: self.close_type.spec_code() as u32,
            flow_source: self.flow_source.spec_code() as u32,
            is_active_service: flag(self.is_active_service),
            queue_hash: self.queue_hash as u32,
            is_new_flow: flag(self.is_new_flow),
            tap_side: tap_side_code(self.tap_side),
            syn_seq: self.syn_seq,
            synack_seq: self.synack_seq,
            last_keepalive_seq: self.last_keepalive_seq,
            last_keepalive_ack: self.last_keepalive_ack,
        }
    }

    /// The flow as it goes out. The two addresses of its key must be of one
    /// family.
    pub fn to_wire(&self) -> (r: WireFlow)
        requires
            self.flow_key.wf(),
        ensures
            r == self.wire(),
    {
        WireFlow {
            flow_key: self.flow_key.to_wire(),
            metrics_peer_src: self.flow_metrics_peers[0].to_wire(),
            metrics_peer_dst: self.flow_metrics_peers[1].to_wire(),
            tunnel: if self.tunnel.tunnel_type == TunnelType::NoTunnel {
                None
            } else {
                Some(self.tunnel.to_wire())
            },
            flow_id: self.flow_id,
            start_time: self.start_time,
            end_time: self.end_time,
            duration: self.duration,
            eth_type: self.eth_type.code() as u32,
            vlan: self.vlan as u32,
            has_perf_stats: flag_of(self.flow_perf_stats.is_some()),
            perf_stats: match self.flow_perf_stats {
                Some(p) => Some(p.to_wire()),
                None => None,
            },
            close_type: self.close_type.code() as u32,
            flow_source: self.flow_source.code() as u32,
            is_active_service: flag_of(self.is_active_service),
            queue_hash: self.queue_hash as u32,
            is_new_flow: flag_of(self.is_new_flow),
            tap_side: tap_side_code_of(self.tap_side),
            syn_seq: self.syn_seq,
            synack_seq: self.synack_seq,
            last_keepalive_seq: self.last_keepalive_seq,
            last_keepalive_ack: self.last_keepalive_ack,
        }
    }
}

/// The wire form of the head of a log record. The time between request and
/// response goes out in nanoseconds.
#[derive(Clone, Copy, Debug, PartialEq, Eq, Structural)]
pub struct WireAppProtoHead {
    pub proto: u32,
    pub msg_type: u32,
    pub status: u32,
    pub code: u32,
    pub rrt: u64,
}

impl AppProtoHead {
    pub open spec fn wire(self) -> WireAppProtoHead {
        WireAppProtoHead {
            proto: self.proto.spec_code() as u32,
            msg_type: self.msg_type.spec_code() as u32,
            status: self.status.spec_code() as u32,
            code: self.code as u32,
            rrt: if self.rrt * NANOS_PER_MICRO > u64::MAX {
                u64::MAX
            } else {
                (self.rrt * NANOS_PER_MICRO) as u64
            },
        }
    }

    /// The head as it goes out.
    pub fn to_wire(&self) -> (r: WireAppProtoHead)
        ensures
            r == self.wire(),
    {
        WireAppProtoHead {
            proto: self.proto.code() as u32,
            msg_type: self.msg_type.code() as u32,
            status: self.status.code() as u32,
            code: self.code as u32,
            rrt: if self.rrt > u64::MAX / NANOS_PER_MICRO {
                u64::MAX
            } else {
                self.rrt * NANOS_PER_MICRO
            },
        }
    }
}

/// The wire form of the base information of a log record.
#[derive(Clone, Debug)]
pub struct WireAppProtoLogsBaseInfo {
    pub start_time: u64,
    pub end_time: u64,
    pub flow_id: u64,
    pub tap_port: u64,
    pub vtap_id: u32,
    pub tap_type: u32,
    pub is_ipv6: u32,
    pub tap_side: u32,
    pub head: WireAppProtoHead,
    pub mac_src: u64,
    pub mac_dst: u64,
    pub ip_src: u32,
    pub ip_dst: u32,
    pub ip6_src: [u8; 16],
    pub ip6_dst: [u8; 16],
    pub l3_epc_id_src: i32,
    pub l3_epc_id_dst: i32,
    pub port_src: u32,
    pub port_dst: u32,
    pub protocol: u32,
    pub is_vip_interface_src: u32,
    pub is_vip_interface_dst: u32,
    pub req_tcp_seq: u32,
    pub resp_tcp_seq: u32,
    pub process_id_0: u32,
    pub process_id_1: u32,
    pub process_kname_0: String,
    pub process_kname_1: String,
    pub syscall_trace_id_request: u64,
    pub syscall_trace_id_response: u64,
    pub syscall_trace_id_thread_0: u32,
    pub syscall_trace_id_thread_1: u32,
    pub syscall_cap_seq_0: u32,
    pub syscall_cap_seq_1: u32,
}

impl AppProtoLogsBaseInfo {
    pub open spec fn wire(self) -> WireAppProtoLogsBaseInfo {
        WireAppProtoLogsBaseInfo {
            start_time: self.start_time,
            end_time: self.end_time,
            flow_id: self.flow_id,
            tap_port: self.tap_port.value,
            vtap_id: self.vtap_id as u32,
            tap_type: self.tap_type.spec_code() as u32,
            is_ipv6: flag(self.is_ipv6),
            tap_side: tap_side_code(self.tap_side),
            head: self.head.wire(),
            mac_src: self.mac_src.value,
            mac_dst: self.mac_dst.value,
            ip_src: v4_of(self.ip_src),
            ip_dst: v4_of(self.ip_dst),
            ip6_src: v6_of(self.ip_src),
            ip6_dst: v6_of(self.ip_dst),
            l3_epc_id_src: self.l3_epc_id_src,
            l3_epc_id_dst: self.l3_epc_id_dst,
            port_src: self.port_src as u32,
            port_dst: self.port_dst as u32,
            protocol: self.protocol.spec_code() as u32,
            is_vip_interface_src: flag(self.is_vip_interface_src),
            is_vip_interface_dst: flag(self.is_vip_interface_dst),
            req_tcp_seq: self.req_tcp_seq,
            resp_tcp_seq: self.resp_tcp_seq,
            process_id_0: self.process_id_0,
            process_id_1: self.process_id_1,
            process_kname_0: self.process_kname_0,
            process_kname_1: self.process_kname_1,
            syscall_trace_id_request: self.syscall_trace_id_request,
            syscall_trace_id_response: self.syscall_trace_id_response,
            syscall_trace_id_thread_0: self.syscall_trace_id_thread_0,
            syscall_trace_id_thread_1: self.syscall_trace_id_thread_1,
            syscall_cap_seq_0: (self.syscall_cap_seq_0 % 0x1_0000_0000) as u32,
            syscall_cap_seq_1: (self.syscall_cap_seq_1 % 0x1_0000_0000) as u32,
        }
    }

    /// The base information as it goes out. The two addresses must be of one
    /// family.
    pub fn to_wire(self) -> (r: WireAppProtoLogsBaseInfo)
        requires
            self.ip_src.spec_is_ipv6() == self.ip_dst.spec_is_ipv6(),
        ensures
            r == self.wire(),
    {
        WireAppProtoLogsBaseInfo {
            start_time: self.start_time,
            end_time: self.end_time,
            flow_id: self.flow_id,
            tap_port: self.tap_port.value,
            vtap_id: self.vtap_id as u32,
            tap_type: self.tap_type.code() as u32,
            is_ipv6: flag_of(self.is_ipv6),
            tap_side: tap_side_code_of(self.tap_side),
            head: self.head.to_wire(),
            mac_src: self.mac_src.value,
            mac_dst: self.mac_dst.value,
            ip_src: v4_part(self.ip_src),
            ip_dst: v4_part(self.ip_dst),
            ip6_src: v6_part(self.ip_src),
            ip6_dst: v6_part(self.ip_dst),
            l3_epc_id_src: self.l3_epc_id_src,
            l3_epc_id_dst: self.l3_epc_id_dst,
            port_src: self.port_src as u32,
            port_dst: self.port_dst as u32,
            protocol: self.protocol.code() as u32,
            is_vip_interface_src: flag_of(self.is_vip_interface_src),
            is_vip_interface_dst: flag_of(self.is_vip_interface_dst),
            req_tcp_seq: self.req_tcp_seq,
            resp_tcp_seq: self.resp_tcp_seq,
            process_id_0: self.process_id_0,
            process_id_1: self.process_id_1,
            process_kname_0: self.process_kname_0,
            process_kname_1: self.process_kname_1,
            syscall_trace_id_request: self.syscall_trace_id_request,
            syscall_trace_id_response: self.syscall_trace_id_response,
            syscall_trace_id_thread_0: self.syscall_trace_id_thread_0,
            syscall_trace_id_thread_1: self.syscall_trace_id_thread_1,
            syscall_cap_seq_0: (self.syscall_cap_seq_0 % 0x1_0000_0000) as u32,
            syscall_cap_seq_1: (self.syscall_cap_seq_1 % 0x1_0000_0000) as u32,
        }
    }
}

/// The wire form of what a DNS message says. The type that goes out is the
/// type of the question or of the last record.
#[derive(Clone, Debug)]
pub struct WireDnsInfo {
    pub trans_id: u32,
    pub query_type: u32,
    pub query_name: String,
    pub answers: String,
}

impl DnsInfo {
    /// Whether `r` is the wire form of what a DNS message says.
    pub open spec fn wired(self, r: WireDnsInfo) -> bool {
        &&& (r.trans_id == self.trans_id)
        &&& (r.query_type == self.domain_type)
        &&& (r.query_name == self.query_name)
        &&& (r.answers == self.answers)
    }

    /// What the message says as it goes out.
    pub fn to_wire(self) -> (r: WireDnsInfo)
        ensures
            self.wired(r),
    {
        WireDnsInfo {
            trans_id: self.trans_id as u32,
            query_type: self.domain_type as u32,
            query_name: self.query_name,
            answers: self.answers,
        }
    }
}

/// The wire form of what a MySQL message says.
#[derive(Clone, Debug)]
pub struct WireMysqlInfo {
    pub protocol_version: u32,
    pub server_version: String,
    pub server_thread_id: u32,
    pub command: u32,
    pub context: String,
    pub response_code: u32,
    pub affected_rows: u64,
    pub error_code: u32,
    pub error_message: String,
}

impl MysqlInfo {
    /// Whether `r` is the wire form of what a MySQL message says.
    pub open spec fn wired(self, r: WireMysqlInfo) -> bool {
        &&& (r.protocol_version == self.protocol_version)
        &&& (r.server_version == self.server_version)
        &&& (r.server_thread_id == self.server_thread_id)
        &&& (r.command == self.command)
        &&& (r.context == self.context)
        &&& (r.response_code == self.response_code)
        &&& (r.affected_rows == self.affected_rows)
        &&& (r.error_code == self.error_code)
        &&& (r.error_message == self.error_message)
    }

    /// What the message says as it goes out.
    pub fn to_wire(self) -> (r: WireMysqlInfo)
        ensures
            self.wired(r),
    {
        WireMysqlInfo {
            protocol_version: self.protocol_version as u32,
            server_version: self.server_version,
            server_thread_id: self.server_thread_id,
            command: self.command as u32,
            context: self.context,
            response_code: self.response_code as u32,
            affected_rows: self.affected_rows,
            error_code: self.error_code as u32,
            error_message: self.error_message,
        }
    }
}

/// The wire form of what a Redis message says.
#[derive(Clone, Debug)]
pub struct WireRedisInfo {
    pub request: Vec<u8>,
    pub request_type: Vec<u8>,
    pub response: Vec<u8>,
    pub status: Vec<u8>,
    pub error: Vec<u8>,
}

impl RedisInfo {
    /// Whether `r` is the wire form of what a Redis message says.
    pub open spec fn wired(self, r: WireRedisInfo) -> bool {
        &&& (r.request == self.request)
        &&& (r.request_type == self.request_type)
        &&& (r.response == self.response)
        &&& (r.status == self.status)
        &&& (r.error == self.error)
    }

    /// What the message says as it goes out.
    pub fn to_wire(self) -> (r: WireRedisInfo)
        ensures
            self.wired(r),
    {
        WireRedisInfo {
            request: self.request,
            request_type: self.request_type,
            response: self.response,
            status: self.status,
            error: self.error,
        }
    }
}

impl PacketKind {
    /// The name of the kind of packet, as the protocol writes it.
    pub open spec fn name_text(self) -> Seq<char> {
        match self {
            PacketKind::Connect => "CONNECT"@,
            PacketKind::Connack => "CONNACK"@,
            PacketKind::Publish { .. } => "PUBLISH"@,
            PacketKind::Puback => "PUBACK"@,
            PacketKind::Pubrec => "PUBREC"@,
            PacketKind::Pubrel => "PUBREL"@,
            PacketKind::Pubcomp => "PUBCOMP"@,
            PacketKind::Subscribe => "SUBSCRIBE"@,
            PacketKind::Suback => "SUBACK"@,
            PacketKind::Unsubscribe => "UNSUBSCRIBE"@,
            PacketKind::Unsuback => "UNSUBACK"@,
            PacketKind::Pingreq => "PINGREQ"@,
            PacketKind::Pingresp => "PINGRESP"@,
            PacketKind::Disconnect => "DISCONNECT"@,
        }
    }

    /// The name of the kind of packet.
    pub fn name(self) -> (r: &'static str)
        ensures
            r@ == self.name_text(),
    {
        match self {
            PacketKind::Connect => "CONNECT",
            PacketKind::Connack => "CONNACK",
            PacketKind::Publish { .. } => "PUBLISH",
            PacketKind::Puback => "PUBACK",
            PacketKind::Pubrec => "PUBREC",
            PacketKind::Pubrel => "PUBREL",
            PacketKind::Pubcomp => "PUBCOMP",
            PacketKind::Subscribe => "SUBSCRIBE",
            PacketKind::Suback => "SUBACK",
            PacketKind::Unsubscribe => "UNSUBSCRIBE",
            PacketKind::Unsuback => "UNSUBACK",
            PacketKind::Pingreq => "PINGREQ",
            PacketKind::Pingresp => "PINGRESP",
            PacketKind::Disconnect => "DISCONNECT",
        }
    }
}

/// The wire form of what an MQTT packet says. A publication goes out with its
/// topic as its one topic, a subscription and an unsubscription with theirs,
/// any other packet with none.
#[derive(Clone, Debug)]
pub struct WireMqttInfo {
    pub mqtt_type: String,
    pub req_msg_size: i32,
    pub proto_version: u32,
    pub client_id: String,
    pub resp_msg_size: i32,
    pub topics: Vec<MqttTopic>,
}

impl MqttInfo {
    /// Whether `r` is the wire form of what an MQTT packet says.
    pub open spec fn wired(self, r: WireMqttInfo) -> bool {
        &&& (r.mqtt_type@ == self.pkt_type.name_text())
        &&& (r.req_msg_size == self.req_msg_size)
        &&& (r.proto_version == self.version)
        &&& (r.resp_msg_size == self.res_msg_size)
        &&& r.client_id@ == (match self.client_id {
            Some(s) => s@,
            None => Seq::<char>::empty(),
        })
        &&& match self.pkt_type {
            PacketKind::Publish { .. } => r.topics@.len() == 1 && r.topics@[0].qos == -1
                && r.topics@[0].name@ == (match self.publish_topic {
                Some(t) => t@,
                None => Seq::<char>::empty(),
            }),
            PacketKind::Subscribe | PacketKind::Unsubscribe => match self.subscribe_topics {
                Some(v) => r.topics == v,
                None => r.topics@.len() == 0,
            },
            _ => r.topics@.len() == 0,
        }
    }

    /// What the packet says as it goes out.
    pub fn to_wire(self) -> (r: WireMqttInfo)
        ensures
            self.wired(r),
    {
        let topics = match self.pkt_type {
            PacketKind::Publish { .. } => {
                let mut v = Vec::new();
                v.push(
                    MqttTopic {
                        name: match self.publish_topic {
                            Some(t) => t,
                            None => String::new(),
                        },
                        qos: -1,
                    },
                );
                v
            },
            PacketKind::Unsubscribe | PacketKind::Subscribe => match self.subscribe_topics {
                Some(v) => v,
                None => Vec::new(),
            },
            _ => Vec::new(),
        };
        WireMqttInfo {
            mqtt_type: String::from_str(self.pkt_type.name()),
            req_msg_size: self.req_msg_size,
            proto_version: self.version as u32,
            client_id: match self.client_id {
                Some(s) => s,
                None => String::new(),
            },
            resp_msg_size: self.res_msg_size,
            topics,
        }
    }
}

/// The wire form of what a log record says of its protocol.
#[derive(Clone, Debug)]
pub enum WireAppProtoLogsInfo {
    Dns(WireDnsInfo),
    Mysql(WireMysqlInfo),
    Redis(WireRedisInfo),
    Mqtt(WireMqttInfo),
}

/// The wire form of a log record.
#[derive(Clone, Debug)]
pub struct WireAppProtoLogsData {
    pub base: WireAppProtoLogsBaseInfo,
    pub special: WireAppProtoLogsInfo,
}

impl AppProtoLogsData {
    /// The record as it goes out. The two addresses must be of one family.
    pub fn to_wire(self) -> (r: WireAppProtoLogsData)
        requires
            self.base_info.ip_src.spec_is_ipv6() == self.base_info.ip_dst.spec_is_ipv6(),
        ensures
            r.base == self.base_info.wire(),
            match (self.special_info, r.special) {
                (AppProtoLogsInfo::Dns(a), WireAppProtoLogsInfo::Dns(b)) => a.wired(b),
                (AppProtoLogsInfo::Mysql(a), WireAppProtoLogsInfo::Mysql(b)) => a.wired(b),
                (AppProtoLogsInfo::Redis(a), WireAppProtoLogsInfo::Redis(b)) => a.wired(b),
                (AppProtoLogsInfo::Mqtt(a), WireAppProtoLogsInfo::Mqtt(b)) => a.wired(b),
                _ => false,
            },
    {
        WireAppProtoLogsData {
            base: self.base_info.to_wire(),
            special: match self.special_info {
                AppProtoLogsInfo::Dns(t) => WireAppProtoLogsInfo::Dns(t.to_wire()),
                AppProtoLogsInfo::Mysql(t) => WireAppProtoLogsInfo::Mysql(t.to_wire()),
                AppProtoLogsInfo::Redis(t) => WireAppProtoLogsInfo::Redis(t.to_wire()),
                AppProtoLogsInfo::Mqtt(t) => WireAppProtoLogsInfo::Mqtt(t.to_wire()),
            },
        }
    }
}

} // verus!
