use deepflow_agent::enums::{IpProtocol, PacketDirection, TapSide, TapType};
use deepflow_agent::flow::L7Protocol;
use deepflow_agent::meta_packet::{EbpfData, EbpfTuple, MetaPacket};
use deepflow_agent::net::IpAddr;
use deepflow_agent::protocol_logs::{
    value_is_default, value_is_negative, AppProtoHead, AppProtoHeadEnum, AppProtoLogsBaseInfo,
    AppProtoLogsData, AppProtoLogsInfo, AppProtoLogsInfoEnum, L7ResponseStatus, LogMessageType,
};
use deepflow_agent::redis::RedisInfo;

#[test]
fn defaults() {
    assert!(value_is_default(&0u32));
    assert!(!value_is_default(&7u32));
    assert!(value_is_default(&String::new()));
    assert!(!value_is_default(&"x".to_string()));
    assert!(value_is_default(&false));
    assert!(value_is_default(&L7Protocol::Unknown));
    assert!(!value_is_default(&L7Protocol::Dns));
    assert!(value_is_negative(&-1i32));
    assert!(!value_is_negative(&0i32));
    assert!(!value_is_negative(&1i64));
    assert!(!value_is_negative(&0u8));
}

fn head(msg_type: LogMessageType) -> AppProtoHead {
    AppProtoHead {
        proto: L7Protocol::Redis,
        msg_type,
        status: L7ResponseStatus::Normal,
        code: 0,
        rrt: 0,
        version: 0,
    }
}

fn probe(direction_out: bool, cap_seq: u64, trace_id: u64, timestamp: u64) -> MetaPacket<'static> {
    let mut laddr = [0u8; 16];
    laddr[..4].copy_from_slice(&[10, 0, 0, 1]);
    let mut raddr = [0u8; 16];
    raddr[..4].copy_from_slice(&[10, 0, 0, 2]);
    let data = EbpfData {
        tuple: EbpfTuple { addr_len: 4, laddr, raddr, lport: 40000, rport: 6379, protocol: 6 },
        direction: if direction_out { 1 } else { 0 },
        timestamp,
        cap_len: 4,
        cap_data: b"PING".to_vec(),
        syscall_len: 4,
        process_id: 77,
        thread_id: 78,
        cap_seq,
        syscall_trace_id_call: trace_id,
        process_name: "redis-cli".to_string(),
        socket_id: 0x1234_5678_9abc_def0,
        tcp_seq: 1000,
        l7_protocal_hint: 80,
    };
    MetaPacket::from_ebpf(&data, 4096).unwrap()
}

#[test]
fn a_session_of_a_traced_flow() {
    let request_packet = probe(true, 5, 900, 1_000);
    let request = AppProtoLogsBaseInfo::from_ebpf(
        &request_packet,
        head(LogMessageType::Request),
        3,
        -1,
        -2,
    );
    assert_eq!(request.start_time, request_packet.lookup_key.timestamp);
    assert_eq!(request.end_time, request.start_time);
    assert_eq!(request.vtap_id, 3);
    assert_eq!(request.flow_id, request_packet.socket_id);
    assert_eq!(request.protocol, IpProtocol::Tcp);
    let key = &request_packet.lookup_key;
    if request_packet.direction == PacketDirection::ClientToServer {
        assert_eq!((request.port_src, request.port_dst), (key.src_port, key.dst_port));
        assert_eq!((request.ip_src, request.ip_dst), (key.src_ip, key.dst_ip));
    } else {
        assert_eq!((request.port_src, request.port_dst), (key.dst_port, key.src_port));
        assert_eq!((request.ip_src, request.ip_dst), (key.dst_ip, key.src_ip));
    }
    assert_ne!(request.ip_src, request.ip_dst);
    let local_first =
        key.l2_end_0 == (request_packet.direction == PacketDirection::ClientToServer);
    if local_first {
        assert_eq!((request.l3_epc_id_src, request.l3_epc_id_dst), (-1, -2));
        assert_eq!((request.process_id_0, request.process_id_1), (77, 0));
        assert_eq!(request.process_kname_0, "redis-cli");
        assert_eq!(request.tap_side, TapSide::ClientProcess);
    } else {
        assert_eq!((request.l3_epc_id_src, request.l3_epc_id_dst), (-2, -1));
        assert_eq!((request.process_id_0, request.process_id_1), (0, 77));
        assert_eq!(request.process_kname_1, "redis-cli");
        assert_eq!(request.tap_side, TapSide::ServerProcess);
    }
    assert_eq!(request.tap_type, TapType::Tor);
    assert!(!request.is_ipv6);
    assert!(request.start_time <= request.end_time);

    let mut response_packet = probe(false, 6, 901, 2_000);
    response_packet.direction = PacketDirection::ServerToClient;
    let response = AppProtoLogsBaseInfo::from_ebpf(
        &response_packet,
        AppProtoHead { rrt: 9, code: 4, status: L7ResponseStatus::ServerError, ..head(LogMessageType::Response) },
        3,
        -1,
        -2,
    );
    let want_end = response.end_time.max(request.start_time);
    let mut session = AppProtoLogsData::new(request.clone(), AppProtoLogsInfo::Redis(RedisInfo::default()));
    let other = AppProtoLogsData::new(response.clone(), AppProtoLogsInfo::Redis(RedisInfo::default()));
    session.session_merge(other);
    let merged = &session.base_info;
    assert_eq!(merged.start_time, request.start_time);
    assert_eq!(merged.end_time, want_end);
    assert!(merged.start_time <= merged.end_time);
    assert_eq!(merged.head.msg_type, LogMessageType::Session);
    assert_eq!(merged.head.status, L7ResponseStatus::ServerError);
    assert_eq!(merged.head.code, 4);
    assert_eq!(merged.head.rrt, 9);
    assert_eq!(merged.process_id_1, response.process_id_1);
    assert_eq!(merged.process_kname_1, response.process_kname_1);
    assert_eq!(merged.syscall_trace_id_thread_1, response.syscall_trace_id_thread_1);
    assert_eq!(merged.syscall_cap_seq_1, response.syscall_cap_seq_1);
    assert_eq!(merged.syscall_trace_id_response, response.syscall_trace_id_response);
    assert_eq!(merged.syscall_trace_id_request, request.syscall_trace_id_request);
    assert_eq!(merged.process_id_0, request.process_id_0);
    assert_eq!(merged.tap_side, request.tap_side);
    assert_ne!(merged.tap_side, TapSide::Rest);
    assert!(merged.ip_src == IpAddr::V4(0x0a00_0001) || merged.ip_src == IpAddr::V4(0x0a00_0002));
}

#[test]
fn records_of_one_payload_or_of_several() {
    let one = AppProtoHeadEnum::Single(head(LogMessageType::Request));
    assert_eq!(one.into_vec(), vec![head(LogMessageType::Request)]);
    let two = AppProtoHeadEnum::Multi(vec![head(LogMessageType::Request), head(LogMessageType::Response)]);
    assert_eq!(two.into_vec().len(), 2);
    let info = AppProtoLogsInfoEnum::Single(AppProtoLogsInfo::Redis(RedisInfo::default()));
    match info.clone().into_inner() {
        AppProtoLogsInfo::Redis(i) => assert_eq!(i, RedisInfo::default()),
        _ => panic!("a Redis record expected"),
    }
    assert_eq!(info.into_vec().len(), 1);
}

#[test]
fn session_keys() {
    let mut base = AppProtoLogsBaseInfo::new();
    base.flow_id = 0xab00_0012_3456_7800;
    base.head = head(LogMessageType::Request);
    base.syscall_cap_seq_0 = 5;
    base.syscall_cap_seq_1 = 0;
    let request = AppProtoLogsData::new(base.clone(), AppProtoLogsInfo::Redis(RedisInfo::default()));
    let mut base = base;
    base.head = head(LogMessageType::Response);
    base.syscall_cap_seq_0 = 0;
    base.syscall_cap_seq_1 = 6;
    let response = AppProtoLogsData::new(base, AppProtoLogsInfo::Redis(RedisInfo::default()));
    // the request counts one on, so that it meets the response that follows it
    assert_eq!(request.ebpf_flow_session_id(), response.ebpf_flow_session_id());
    let key = request.ebpf_flow_session_id();
    assert_eq!(key >> 56, 0xab);
    assert_eq!((key >> 24) & 0xff, 80);
    assert_eq!(key & 0xff_ffff, 6);
}
