//! What the application-protocol log parsers have in common: the head of a
//! log record, the base information of a record, and the pairing of requests
//! with responses into sessions.

use vstd::prelude::*;
use vstd::std_specs::cmp::{PartialEqSpec, PartialOrdSpec};
use crate::dns::DnsInfo;
use crate::enums::{IpProtocol, PacketDirection, TapSide, TapType};
use crate::error::Error;
use crate::flow::L7Protocol;
use crate::meta_packet::MetaPacket;
use crate::mqtt::MqttInfo;
use crate::mysql::MysqlInfo;
use crate::net::{IpAddr, MacAddr};
use crate::redis::RedisInfo;
use crate::tap_port::TapPort;

verus! {

/// How a request was answered.
#[derive(Clone, Copy, Debug, PartialEq, Eq, Structural)]
pub enum L7ResponseStatus {
    /// The request was answered without an error.
    Normal,
    Error,
    NotExist,
    ServerError,
    ClientError,
}

impl L7ResponseStatus {
    pub open spec fn spec_code(self) -> u8 {
        match self {
            L7ResponseStatus::Normal => 0,
            L7ResponseStatus::Error => 1,
            L7ResponseStatus::NotExist => 2,
            L7ResponseStatus::ServerError => 3,
            L7ResponseStatus::ClientError => 4,
        }
    }

    pub fn code(self) -> (r: u8)
        ensures
            r == self.spec_code(),
    {
        match self {
            L7ResponseStatus::Normal => 0,
            L7ResponseStatus::Error => 1,
            L7ResponseStatus::NotExist => 2,
            L7ResponseStatus::ServerError => 3,
            L7ResponseStatus::ClientError => 4,
        }
    }
}

impl Default for L7ResponseStatus {
    fn default() -> (r: Self)
        ensures
            r == L7ResponseStatus::Normal,
    {
        L7ResponseStatus::Normal
    }
}

/// What a log record stands for.
#[derive(Clone, Copy, Debug, PartialEq, Eq, Structural)]
pub enum LogMessageType {
    Request,
    Response,
    Session,
    Other,
    Max,
}

impl LogMessageType {
    pub open spec fn spec_code(self) -> u8 {
        match self {
            LogMessageType::Request => 0,
            LogMessageType::Response => 1,
            LogMessageType::Session => 2,
            LogMessageType::Other => 3,
            LogMessageType::Max => 4,
        }
    }

    pub fn code(self) -> (r: u8)
        ensures
            r == self.spec_code(),
    {
        match self {
            LogMessageType::Request => 0,
            LogMessageType::Response => 1,
            LogMessageType::Session => 2,
            LogMessageType::Other => 3,
            LogMessageType::Max => 4,
        }
    }

    /// A packet from the client is a request, one from the server a response.
    pub open spec fn of_direction(d: PacketDirection) -> LogMessageType {
        match d {
            PacketDirection::ClientToServer => LogMessageType::Request,
            PacketDirection::ServerToClient => LogMessageType::Response,
        }
    }

    pub fn from_direction(d: PacketDirection) -> (r: LogMessageType)
        ensures
            r == LogMessageType::of_direction(d),
    {
        match d {
            PacketDirection::ClientToServer => LogMessageType::Request,
            PacketDirection::ServerToClient => LogMessageType::Response,
        }
    }
}

impl Default for LogMessageType {
    fn default() -> (r: Self)
        ensures
            r == LogMessageType::Other,
    {
        LogMessageType::Other
    }
}

/// The head of a log record. `rrt` is the time between request and response
/// in microseconds.
#[derive(Clone, Copy, Debug, PartialEq, Eq, Structural)]
pub struct AppProtoHead {
    pub proto: L7Protocol,
    pub msg_type: LogMessageType,
    pub status: L7ResponseStatus,
    pub code: u16,
    pub rrt: u64,
    pub version: u8,
}

impl Default for AppProtoHead {
    fn default() -> (r: Self)
        ensures
            r == (AppProtoHead {
                proto: L7Protocol::Unknown,
                msg_type: LogMessageType::Other,
                status: L7ResponseStatus::Normal,
                code: 0,
                rrt: 0,
                version: 0,
            }),
    {
        AppProtoHead {
            proto: L7Protocol::Unknown,
            msg_type: LogMessageType::Other,
            status: L7ResponseStatus::Normal,
            code: 0,
            rrt: 0,
            version: 0,
        }
    }
}

/// The heads of the messages of one payload.
#[derive(Clone, Debug)]
pub enum AppProtoHeadEnum {
    Single(AppProtoHead),
    Multi(Vec<AppProtoHead>),
}

impl AppProtoHeadEnum {
    /// The heads in order.
    pub open spec fn heads(self) -> Seq<AppProtoHead> {
        match self {
            AppProtoHeadEnum::Single(h) => seq![h],
            AppProtoHeadEnum::Multi(v) => v@,
        }
    }

    /// The heads in order, as a vector.
    pub fn into_vec(self) -> (r: Vec<AppProtoHead>)
        ensures
            r@ == self.heads(),
    {
        match self {
            AppProtoHeadEnum::Single(h) => {
                let mut v = Vec::new();
                v.push(h);
                assert(v@ =~= seq![h]);
                v
            },
            AppProtoHeadEnum::Multi(v) => v,
        }
    }
}

/// A parser of the log records of one application protocol.
pub trait L7LogParse {
    /// Parses `payload`, the layer-4 payload of a packet over transport `proto`
    /// that runs in `direction`.
    fn parse(&mut self, payload: &[u8], proto: IpProtocol, direction: PacketDirection) -> Result<
        AppProtoHeadEnum,
        Error,
    >;

    /// What the messages of the last payload say.
    fn info(&self) -> AppProtoLogsInfoEnum;
}


/// What every log record says of its flow. Times are in nanoseconds.
///
/// The fields that end in `_0` or in `request` are of the side that sent the
/// request, those that end in `_1` or in `response` of the side that answered.
#[derive(Clone, Debug)]
pub struct AppProtoLogsBaseInfo {
    pub start_time: u64,
    pub end_time: u64,
    pub flow_id: u64,
    pub tap_port: TapPort,
    pub vtap_id: u16,
    pub tap_type: TapType,
    pub is_ipv6: bool,
    pub tap_side: TapSide,
    pub head: AppProtoHead,
    pub mac_src: MacAddr,
    pub mac_dst: MacAddr,
    pub ip_src: IpAddr,
    pub ip_dst: IpAddr,
    pub l3_epc_id_src: i32,
    pub l3_epc_id_dst: i32,
    pub port_src: u16,
    pub port_dst: u16,
    pub req_tcp_seq: u32,
    pub resp_tcp_seq: u32,
    pub process_id_0: u32,
    pub process_id_1: u32,
    pub process_kname_0: String,
    pub process_kname_1: String,
    pub syscall_trace_id_request: u64,
    pub syscall_trace_id_response: u64,
    pub syscall_trace_id_thread_0: u32,
    pub syscall_trace_id_thread_1: u32,
    pub syscall_cap_seq_0: u64,
    pub syscall_cap_seq_1: u64,
    pub protocol: IpProtocol,
    pub is_vip_interface_src: bool,
    pub is_vip_interface_dst: bool,
}

/// The later of two times.
pub open spec fn later(a: u64, b: u64) -> u64 {
    if a >= b {
        a
    } else {
        b
    }
}

impl AppProtoLogsBaseInfo {
    /// A record of which nothing is known.
    pub fn new() -> (r: AppProtoLogsBaseInfo)
        ensures
            r.start_time == 0 && r.end_time == 0 && r.flow_id == 0 && r.vtap_id == 0,
            r.process_id_0 == 0 && r.process_id_1 == 0,
            r.process_kname_0@.len() == 0 && r.process_kname_1@.len() == 0,
            r.syscall_trace_id_request == 0 && r.syscall_trace_id_response == 0,
            r.syscall_cap_seq_0 == 0 && r.syscall_cap_seq_1 == 0,
            r.head.msg_type == LogMessageType::Other && r.head.proto == L7Protocol::Unknown,
    {
        AppProtoLogsBaseInfo {
            start_time: 0,
            end_time: 0,
            flow_id: 0,
            tap_port: TapPort { value: 0 },
            vtap_id: 0,
            tap_type: TapType::Any,
            is_ipv6: false,
            tap_side: TapSide::Rest,
            head: AppProtoHead::default(),
            mac_src: MacAddr { value: 0 },
            mac_dst: MacAddr { value: 0 },
            ip_src: IpAddr::V4(0),
            ip_dst: IpAddr::V4(0),
            l3_epc_id_src: 0,
            l3_epc_id_dst: 0,
            port_src: 0,
            port_dst: 0,
            req_tcp_seq: 0,
            resp_tcp_seq: 0,
            process_id_0: 0,
            process_id_1: 0,
            process_kname_0: String::new(),
            process_kname_1: String::new(),
            syscall_trace_id_request: 0,
            syscall_trace_id_response: 0,
            syscall_trace_id_thread_0: 0,
            syscall_trace_id_thread_1: 0,
            syscall_cap_seq_0: 0,
            syscall_cap_seq_1: 0,
            protocol: IpProtocol::Ipv6HopByHop,
            is_vip_interface_src: false,
            is_vip_interface_dst: false,
        }
    }

    /// The base information of the record of a packet that a kernel probe
    /// captured at a socket of the process `packet.process_id`.
    ///
    /// The socket is the flow. A packet that the process sends has the process
    /// at its source; a response has source and destination turned round, so
    /// that the source of the record is the side that sent the request. Of what
    /// the probe tells about the system call, a request fills the fields of the
    /// request and a response those of the response; the others are zero.
    pub fn from_ebpf(
        packet: &MetaPacket,
        head: AppProtoHead,
        vtap_id: u16,
        local_epc: i32,
        remote_epc: i32,
    ) -> (r: AppProtoLogsBaseInfo)
        ensures
            ({
                let key = packet.lookup_key;
                let is_src = key.l2_end_0;
                let request = packet.direction == PacketDirection::ClientToServer;
                let local_first = is_src == request;
                &&& r.start_time == key.timestamp && r.end_time == key.timestamp
                &&& r.flow_id == packet.socket_id
                &&& r.tap_port == packet.tap_port
                &&& r.tap_type == TapType::Tor
                &&& r.vtap_id == vtap_id
                &&& r.head == head
                &&& r.is_ipv6 == key.dst_ip.spec_is_ipv6()
                &&& r.protocol == key.proto
                &&& r.tap_side == if local_first {
                    TapSide::ClientProcess
                } else {
                    TapSide::ServerProcess
                }
                &&& r.mac_src == if request {
                    key.src_mac
                } else {
                    key.dst_mac
                }
                &&& r.mac_dst == if request {
                    key.dst_mac
                } else {
                    key.src_mac
                }
                &&& r.ip_src == if request {
                    key.src_ip
                } else {
                    key.dst_ip
                }
                &&& r.ip_dst == if request {
                    key.dst_ip
                } else {
                    key.src_ip
                }
                &&& r.port_src == if request {
                    key.src_port
                } else {
                    key.dst_port
                }
                &&& r.port_dst == if request {
                    key.dst_port
                } else {
                    key.src_port
                }
                &&& r.l3_epc_id_src == if local_first {
                    local_epc
                } else {
                    remote_epc
                }
                &&& r.l3_epc_id_dst == if local_first {
                    remote_epc
                } else {
                    local_epc
                }
                &&& r.process_id_0 == if local_first {
                    packet.process_id
                } else {
                    0
                }
                &&& r.process_id_1 == if local_first {
                    0
                } else {
                    packet.process_id
                }
                &&& r.process_kname_0@ == if local_first {
                    packet.process_name@
                } else {
                    Seq::<char>::empty()
                }
                &&& r.process_kname_1@ == if local_first {
                    Seq::<char>::empty()
                } else {
                    packet.process_name@
                }
                &&& r.syscall_trace_id_request == if request {
                    packet.syscall_trace_id
                } else {
                    0
                }
                &&& r.syscall_trace_id_response == if request {
                    0
                } else {
                    packet.syscall_trace_id
                }
                &&& r.req_tcp_seq == if request {
                    packet.tcp_data.seq
                } else {
                    0
                }
                &&& r.resp_tcp_seq == if request {
                    0
                } else {
                    packet.tcp_data.seq
                }
                &&& r.syscall_trace_id_thread_0 == if request {
                    packet.thread_id
                } else {
                    0
                }
                &&& r.syscall_trace_id_thread_1 == if request {
                    0
                } else {
                    packet.thread_id
                }
                &&& r.syscall_cap_seq_0 == if request {
                    packet.cap_seq
                } else {
                    0
                }
                &&& r.syscall_cap_seq_1 == if request {
                    0
                } else {
                    packet.cap_seq
                }
                &&& !r.is_vip_interface_src && !r.is_vip_interface_dst
            }),
    {
        let key = packet.lookup_key;
        let is_src = key.l2_end_0;
        let request = packet.direction == PacketDirection::ClientToServer;
        let local_first = is_src == request;
        let name_0 = if local_first {
            packet.process_name.clone()
        } else {
            String::new()
        };
        let name_1 = if local_first {
            String::new()
        } else {
            packet.process_name.clone()
        };
        AppProtoLogsBaseInfo {
            start_time: key.timestamp,
            end_time: key.timestamp,
            flow_id: packet.socket_id,
            tap_port: packet.tap_port,
            vtap_id,
            tap_type: TapType::Tor,
            is_ipv6: key.dst_ip.is_ipv6(),
            tap_side: if local_first {
                TapSide::ClientProcess
            } else {
                TapSide::ServerProcess
            },
            head,
            mac_src: if request {
                key.src_mac
            } else {
                key.dst_mac
            },
            mac_dst: if request {
                key.dst_mac
            } else {
                key.src_mac
            },
            ip_src: if request {
                key.src_ip
            } else {
                key.dst_ip
            },
            ip_dst: if request {
                key.dst_ip
            } else {
                key.src_ip
            },
            l3_epc_id_src: if local_first {
                local_epc
            } else {
                remote_epc
            },
            l3_epc_id_dst: if local_first {
                remote_epc
            } else {
                local_epc
            },
            port_src: if request {
                key.src_port
            } else {
                key.dst_port
            },
            port_dst: if request {
                key.dst_port
            } else {
                key.src_port
            },
            req_tcp_seq: if request {
                packet.tcp_data.seq
            } else {
                0
            },
            resp_tcp_seq: if request {
                0
            } else {
                packet.tcp_data.seq
            },
            process_id_0: if local_first {
                packet.process_id
            } else {
                0
            },
            process_id_1: if local_first {
                0
            } else {
                packet.process_id
            },
            process_kname_0: name_0,
            process_kname_1: name_1,
            syscall_trace_id_request: if request {
                packet.syscall_trace_id
            } else {
                0
            },
            syscall_trace_id_response: if request {
                0
            } else {
                packet.syscall_trace_id
            },
            syscall_trace_id_thread_0: if request {
                packet.thread_id
            } else {
                0
            },
            syscall_trace_id_thread_1: if request {
                0
            } else {
                packet.thread_id
            },
            syscall_cap_seq_0: if request {
                packet.cap_seq
            } else {
                0
            },
            syscall_cap_seq_1: if request {
                0
            } else {
                packet.cap_seq
            },
            protocol: key.proto,
            is_vip_interface_src: false,
            is_vip_interface_dst: false,
        }
    }

    /// The record of a request with the record `log` of its response merged
    /// into it: the record of the session.
    pub open spec fn merged(self, log: AppProtoLogsBaseInfo) -> AppProtoLogsBaseInfo {
        AppProtoLogsBaseInfo {
            process_id_0: if log.process_id_0 > 0 {
                log.process_id_0
            } else {
                self.process_id_0
            },
            process_kname_0: if log.process_id_0 > 0 {
                log.process_kname_0
            } else {
                self.process_kname_0
            },
            process_id_1: if log.process_id_1 > 0 {
                log.process_id_1
            } else {
                self.process_id_1
            },
            process_kname_1: if log.process_id_1 > 0 {
                log.process_kname_1
            } else {
                self.process_kname_1
            },
            syscall_trace_id_thread_1: log.syscall_trace_id_thread_1,
            syscall_cap_seq_1: log.syscall_cap_seq_1,
            end_time: later(log.end_time, self.start_time),
            resp_tcp_seq: log.resp_tcp_seq,
            syscall_trace_id_response: log.syscall_trace_id_response,
            head: AppProtoHead {
                msg_type: LogMessageType::Session,
                code: log.head.code,
                status: log.head.status,
                rrt: log.head.rrt,
                ..self.head
            },
            ..self
        }
    }

    /// Merges the record `log` of a response into the record of its request.
    /// The end of the session is the end of the response, and never before the
    /// start of the request.
    pub fn merge(&mut self, log: AppProtoLogsBaseInfo)
        ensures
            *final(self) == old(self).merged(log),
            final(self).start_time <= final(self).end_time,
            final(self).start_time == old(self).start_time,
            final(self).syscall_trace_id_request == old(self).syscall_trace_id_request,
            final(self).syscall_trace_id_response == log.syscall_trace_id_response,
    {
        let mut cur = AppProtoLogsBaseInfo::new();
        std::mem::swap(self, &mut cur);
        let first = log.process_id_0 > 0;
        let second = log.process_id_1 > 0;
        *self = AppProtoLogsBaseInfo {
            process_id_0: if first {
                log.process_id_0
            } else {
                cur.process_id_0
            },
            process_kname_0: if first {
                log.process_kname_0
            } else {
                cur.process_kname_0
            },
            process_id_1: if second {
                log.process_id_1
            } else {
                cur.process_id_1
            },
            process_kname_1: if second {
                log.process_kname_1
            } else {
                cur.process_kname_1
            },
            syscall_trace_id_thread_1: log.syscall_trace_id_thread_1,
            syscall_cap_seq_1: log.syscall_cap_seq_1,
            end_time: if log.end_time >= cur.start_time {
                log.end_time
            } else {
                cur.start_time
            },
            resp_tcp_seq: log.resp_tcp_seq,
            syscall_trace_id_response: log.syscall_trace_id_response,
            head: AppProtoHead {
                msg_type: LogMessageType::Session,
                code: log.head.code,
                status: log.head.status,
                rrt: log.head.rrt,
                ..cur.head
            },
            ..cur
        };
    }
}

/// What a log record says of its protocol.
#[derive(Clone, Debug)]
pub enum AppProtoLogsInfo {
    Dns(DnsInfo),
    Mysql(MysqlInfo),
    Redis(RedisInfo),
    Mqtt(MqttInfo),
}

impl AppProtoLogsInfo {
    /// The identifier by which the protocol itself pairs a response with its
    /// request, where it has one: the transaction identifier of DNS, if it is
    /// not zero.
    pub open spec fn spec_session_id(self) -> Option<u32> {
        match self {
            AppProtoLogsInfo::Dns(t) => if t.trans_id > 0 {
                Some(t.trans_id as u32)
            } else {
                None
            },
            _ => None,
        }
    }

    pub fn session_id(&self) -> (r: Option<u32>)
        ensures
            r == self.spec_session_id(),
    {
        match self {
            AppProtoLogsInfo::Dns(t) => {
                if t.trans_id > 0 {
                    Some(t.trans_id as u32)
                } else {
                    None
                }
            },
            _ => None,
        }
    }

    /// Whether two records are of one protocol.
    pub open spec fn same_protocol(self, other: AppProtoLogsInfo) -> bool {
        match (self, other) {
            (AppProtoLogsInfo::Dns(_), AppProtoLogsInfo::Dns(_)) => true,
            (AppProtoLogsInfo::Mysql(_), AppProtoLogsInfo::Mysql(_)) => true,
            (AppProtoLogsInfo::Redis(_), AppProtoLogsInfo::Redis(_)) => true,
            (AppProtoLogsInfo::Mqtt(_), AppProtoLogsInfo::Mqtt(_)) => true,
            _ => false,
        }
    }

    /// Whether `after` is what this record of a request says once the record
    /// `other` of its response is merged into it: the request keeps what it
    /// asked, and takes what the response answered.
    pub open spec fn merged_with(self, other: AppProtoLogsInfo, after: AppProtoLogsInfo) -> bool {
        &&& after.same_protocol(other)
        &&& match (self, other, after) {
            (
                AppProtoLogsInfo::Dns(a),
                AppProtoLogsInfo::Dns(b),
                AppProtoLogsInfo::Dns(c),
            ) => c.answers == b.answers && c.query_name == a.query_name && c.trans_id
                == a.trans_id && c.query_type == a.query_type && c.domain_type == a.domain_type,
            (
                AppProtoLogsInfo::Mysql(a),
                AppProtoLogsInfo::Mysql(b),
                AppProtoLogsInfo::Mysql(c),
            ) => c.response_code == b.response_code && c.affected_rows == b.affected_rows
                && c.error_code == b.error_code && c.error_message == b.error_message && c.context
                == a.context && c.command == a.command,
            (
                AppProtoLogsInfo::Redis(a),
                AppProtoLogsInfo::Redis(b),
                AppProtoLogsInfo::Redis(c),
            ) => c.response == b.response && c.status == b.status && c.error == b.error
                && c.request == a.request && c.request_type == a.request_type,
            (
                AppProtoLogsInfo::Mqtt(a),
                AppProtoLogsInfo::Mqtt(b),
                AppProtoLogsInfo::Mqtt(c),
            ) => c@.res_msg_size == b.res_msg_size && c@.client_id == a@.client_id
                && c@.req_msg_size == a.req_msg_size && c@.pkt_type == a.pkt_type,
            _ => true,
        }
    }

    /// Merges what a response says into what its request says. The two must
    /// be of one protocol.
    pub fn merge(&mut self, other: AppProtoLogsInfo)
        requires
            old(self).same_protocol(other),
        ensures
            old(self).merged_with(other, *final(self)),
            final(self).same_protocol(other),
    {
        match self {
            AppProtoLogsInfo::Dns(m) => {
                match other {
                    AppProtoLogsInfo::Dns(o) => m.merge(o),
                    _ => {},
                }
            },
            AppProtoLogsInfo::Mysql(m) => {
                match other {
                    AppProtoLogsInfo::Mysql(o) => m.merge(o),
                    _ => {},
                }
            },
            AppProtoLogsInfo::Redis(m) => {
                match other {
                    AppProtoLogsInfo::Redis(o) => m.merge(o),
                    _ => {},
                }
            },
            AppProtoLogsInfo::Mqtt(m) => {
                match other {
                    AppProtoLogsInfo::Mqtt(o) => m.merge(o),
                    _ => {},
                }
            },
        }
    }
}

/// A log record: what it says of its flow and what it says of its protocol.
#[derive(Clone, Debug)]
pub struct AppProtoLogsData {
    pub base_info: AppProtoLogsBaseInfo,
    pub special_info: AppProtoLogsInfo,
}

/// The part of a session key that comes from the flow: the high byte of the
/// flow identifier stays where it is, and its low 24 bits stand in the bits 32
/// to 55.
pub open spec fn flow_id_part(flow_id: u64) -> u64 {
    (flow_id >> 56 << 56) | (flow_id << 40 >> 8)
}

/// The key under which a record of a flow from a kernel probe is paired: the
/// part of the flow, the code of the protocol in the bits 24 to 31, and in the
/// low 24 bits the identifier by which the protocol pairs, or else the greater
/// of the two capture sequence numbers, one more for a request.
pub open spec fn session_key(data: AppProtoLogsData) -> u64 {
    let base = data.base_info;
    let correlation: u64 = match data.special_info.spec_session_id() {
        Some(id) => id as u64,
        None => {
            let cap_seq = later(base.syscall_cap_seq_0, base.syscall_cap_seq_1);
            if base.head.msg_type == LogMessageType::Request {
                if cap_seq == u64::MAX {
                    0
                } else {
                    (cap_seq + 1) as u64
                }
            } else {
                cap_seq
            }
        },
    };
    flow_id_part(base.flow_id) | (base.head.proto.spec_code() as u64) << 24 | (correlation
        & 0xff_ffff)
}

impl AppProtoLogsData {
    pub fn new(base_info: AppProtoLogsBaseInfo, special_info: AppProtoLogsInfo) -> (r: Self)
        ensures
            r.base_info == base_info,
            r.special_info == special_info,
    {
        AppProtoLogsData { base_info, special_info }
    }

    /// The key under which the record is paired with the other record of its
    /// session.
    pub fn ebpf_flow_session_id(&self) -> (r: u64)
        ensures
            r == session_key(*self),
    {
        let flow_id = self.base_info.flow_id;
        let part = (flow_id >> 56 << 56) | (flow_id << 40 >> 8);
        let proto: u64 = self.base_info.head.proto.code() as u64;
        match self.special_info.session_id() {
            Some(session_id) => part | proto << 24 | ((session_id as u64) & 0xff_ffff),
            None => {
                let a = self.base_info.syscall_cap_seq_0;
                let b = self.base_info.syscall_cap_seq_1;
                let mut cap_seq = if a >= b {
                    a
                } else {
                    b
                };
                if self.base_info.head.msg_type == LogMessageType::Request {
                    cap_seq = cap_seq.wrapping_add(1);
                }
                part | proto << 24 | (cap_seq & 0xff_ffff)
            },
        }
    }

    /// Merges the record `log` of a response into this record of its request.
    /// The two must be of one protocol.
    pub fn session_merge(&mut self, log: AppProtoLogsData)
        requires
            old(self).special_info.same_protocol(log.special_info),
        ensures
            final(self).base_info == old(self).base_info.merged(log.base_info),
            final(self).base_info.start_time <= final(self).base_info.end_time,
            final(self).base_info.head.msg_type == LogMessageType::Session,
            final(self).special_info.same_protocol(log.special_info),
            old(self).special_info.merged_with(log.special_info, final(self).special_info),
    {
        self.base_info.merge(log.base_info);
        self.special_info.merge(log.special_info);
    }
}

/// What the messages of one payload say.
#[derive(Clone, Debug)]
pub enum AppProtoLogsInfoEnum {
    Single(AppProtoLogsInfo),
    Multi(Vec<AppProtoLogsInfo>),
}

impl AppProtoLogsInfoEnum {
    /// The one record of a payload that holds just one.
    pub fn into_inner(self) -> (r: AppProtoLogsInfo)
        requires
            self is Single,
        ensures
            self == AppProtoLogsInfoEnum::Single(r),
    {
        match self {
            AppProtoLogsInfoEnum::Single(v) => v,
            AppProtoLogsInfoEnum::Multi(_) => vstd::pervasive::unreached(),
        }
    }

    /// The records in order.
    pub open spec fn infos(self) -> Seq<AppProtoLogsInfo> {
        match self {
            AppProtoLogsInfoEnum::Single(v) => seq![v],
            AppProtoLogsInfoEnum::Multi(v) => v@,
        }
    }

    /// The records in order, as a vector.
    pub fn into_vec(self) -> (r: Vec<AppProtoLogsInfo>)
        ensures
            r@ == self.infos(),
    {
        match self {
            AppProtoLogsInfoEnum::Single(v) => {
                let mut out = Vec::new();
                out.push(v);
                assert(out@ =~= seq![v]);
                out
            },
            AppProtoLogsInfoEnum::Multi(v) => v,
        }
    }
}

/// Whether `t` is the value that its type has by default, for a type whose
/// `==` is specified: `t` equals a value that `default` returns.
pub fn value_is_default<T>(t: &T) -> (r: bool) where T: Default + PartialEq
    ensures
        T::obeys_eq_spec() ==> exists|d: T|
            #[trigger] call_ensures(T::default, (), d) && r == t.eq_spec(&d),
{
    let d = T::default();
    t.eq(&d)
}

/// Whether `t` is below the value that its type has by default, for a type
/// whose order is specified: `t` is less than a value that `default` returns.
pub fn value_is_negative<T>(t: &T) -> (r: bool) where T: Default + PartialEq + PartialOrd
    ensures
        T::obeys_partial_cmp_spec() ==> exists|d: T|
            #[trigger] call_ensures(T::default, (), d) && r == (t.partial_cmp_spec(&d) == Some(
                core::cmp::Ordering::Less,
            )),
{
    let d = T::default();
    t.lt(&d)
}

} // verus!
