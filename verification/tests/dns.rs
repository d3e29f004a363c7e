use deepflow_agent::dns::{decode_name, dns_check_protocol, DnsInfo, DnsLog};
use deepflow_agent::enums::{IpProtocol, PacketDirection};
use deepflow_agent::error::{DnsFault, Error};
use deepflow_agent::flow::L7Protocol;
use deepflow_agent::meta_packet::{EbpfData, EbpfTuple, MetaPacket};
use deepflow_agent::protocol_logs::{
    AppProtoHead, AppProtoHeadEnum, AppProtoLogsBaseInfo, AppProtoLogsData, AppProtoLogsInfo,
    AppProtoLogsInfoEnum, L7LogParse, L7ResponseStatus, LogMessageType,
};

fn header(id: u16, flags: u16, qd: u16, an: u16, ns: u16) -> Vec<u8> {
    let mut m = Vec::new();
    m.extend_from_slice(&id.to_be_bytes());
    m.extend_from_slice(&flags.to_be_bytes());
    m.extend_from_slice(&qd.to_be_bytes());
    m.extend_from_slice(&an.to_be_bytes());
    m.extend_from_slice(&ns.to_be_bytes());
    m.extend_from_slice(&[0, 0]);
    m
}

fn question(m: &mut Vec<u8>, qtype: u16) {
    m.extend_from_slice(b"\x07example\x03com\x00");
    m.extend_from_slice(&qtype.to_be_bytes());
    m.extend_from_slice(&[0, 1]);
}

fn record(m: &mut Vec<u8>, name: &[u8], rtype: u16, rdata: &[u8]) {
    m.extend_from_slice(name);
    m.extend_from_slice(&rtype.to_be_bytes());
    m.extend_from_slice(&[0, 1, 0, 0, 0, 60]);
    m.extend_from_slice(&(rdata.len() as u16).to_be_bytes());
    m.extend_from_slice(rdata);
}

fn query() -> Vec<u8> {
    let mut m = header(0x1234, 0x0100, 1, 0, 0);
    question(&mut m, 1);
    m
}

fn answer() -> Vec<u8> {
    let mut m = header(0x1234, 0x8180, 1, 1, 0);
    question(&mut m, 1);
    record(&mut m, &[0xc0, 0x0c], 1, &[93, 184, 216, 34]);
    m
}

fn single(r: Result<AppProtoHeadEnum, Error>) -> AppProtoHead {
    match r.unwrap() {
        AppProtoHeadEnum::Single(h) => h,
        AppProtoHeadEnum::Multi(_) => panic!("one head expected"),
    }
}

fn dns_info(log: &DnsLog) -> DnsInfo {
    match log.info() {
        AppProtoLogsInfoEnum::Single(AppProtoLogsInfo::Dns(i)) => i,
        _ => panic!("one DNS record expected"),
    }
}

#[test]
fn a_query_for_example_com_and_its_answer() {
    let mut log = DnsLog::default();
    let head = single(log.parse(&query(), IpProtocol::Udp, PacketDirection::ClientToServer));
    assert_eq!(head.proto, L7Protocol::Dns);
    assert_eq!(head.msg_type, LogMessageType::Request);
    assert_eq!(head.status, L7ResponseStatus::Normal);
    assert_eq!(head.code, 0);
    let request = dns_info(&log);
    assert_eq!(request.trans_id, 0x1234);
    assert_eq!(request.query_type, 0);
    assert_eq!(request.domain_type, 1);
    assert_eq!(request.query_name, "example.com");
    assert_eq!(request.answers, "");

    let mut log = DnsLog::default();
    let response_head =
        single(log.parse(&answer(), IpProtocol::Udp, PacketDirection::ServerToClient));
    assert_eq!(response_head.msg_type, LogMessageType::Response);
    assert_eq!(response_head.status, L7ResponseStatus::Normal);
    let response = dns_info(&log);
    assert_eq!(response.trans_id, 0x1234);
    assert_eq!(response.query_type, 1);
    assert_eq!(response.domain_type, 1);
    assert_eq!(response.query_name, "example.com");
    assert_eq!(response.answers, "93.184.216.34");

    // the two are paired into one session
    let mut base = AppProtoLogsBaseInfo::new();
    base.flow_id = 99;
    base.start_time = 1_000;
    base.end_time = 1_000;
    base.head = head;
    let mut session = AppProtoLogsData::new(base, AppProtoLogsInfo::Dns(request));
    let mut base = AppProtoLogsBaseInfo::new();
    base.flow_id = 99;
    base.start_time = 3_000;
    base.end_time = 3_000;
    base.head = response_head;
    base.head.rrt = 2;
    let other = AppProtoLogsData::new(base, AppProtoLogsInfo::Dns(response));
    assert_eq!(session.ebpf_flow_session_id(), other.ebpf_flow_session_id());
    session.session_merge(other);
    assert_eq!(session.base_info.start_time, 1_000);
    assert_eq!(session.base_info.end_time, 3_000);
    assert_eq!(session.base_info.head.msg_type, LogMessageType::Session);
    assert_eq!(session.base_info.head.status, L7ResponseStatus::Normal);
    assert_eq!(session.base_info.head.rrt, 2);
    match session.special_info {
        AppProtoLogsInfo::Dns(ref i) => {
            assert_eq!(i.query_name, "example.com");
            assert_eq!(i.domain_type, 1);
            assert_eq!(i.answers, "93.184.216.34");
        }
        _ => panic!("a DNS record expected"),
    }
    let wire = session.to_wire();
    match wire.special {
        deepflow_agent::wire::WireAppProtoLogsInfo::Dns(d) => {
            assert_eq!(d.query_type, 1);
            assert_eq!(d.trans_id, 0x1234);
        }
        _ => panic!("a DNS record expected"),
    }
}

#[test]
fn forward_compression_pointer_is_rejected() {
    // the name at 12 is a pointer to 14, which lies behind it
    let mut m = header(1, 0x0100, 1, 0, 0);
    m.extend_from_slice(&[0xc0, 0x0e, 3, b'c', b'o', b'm', 0, 0, 1, 0, 1]);
    assert_eq!(decode_name(&m, 12), Err(Error::DnsLogParseFailed(DnsFault::CompressPointer)));
    let mut log = DnsLog::default();
    assert_eq!(
        log.parse(&m, IpProtocol::Udp, PacketDirection::ClientToServer).err(),
        Some(Error::DnsLogParseFailed(DnsFault::CompressPointer))
    );
    // a pointer to itself is no better
    let mut m = header(1, 0x0100, 1, 0, 0);
    m.extend_from_slice(&[0xc0, 0x0c, 0, 1, 0, 1]);
    assert_eq!(decode_name(&m, 12), Err(Error::DnsLogParseFailed(DnsFault::CompressPointer)));
    // a pointer backwards is followed
    let mut m = header(1, 0x0100, 1, 0, 0);
    m.extend_from_slice(b"\x03com\x00");
    m.extend_from_slice(&[3, b'w', b'w', b'w', 0xc0, 0x0c, 0, 1, 0, 1]);
    assert_eq!(decode_name(&m, 17), Ok(("www.com".to_string(), 23)));
}

#[test]
fn names() {
    let m = b"\x03www\x07example\x03com\x00rest";
    assert_eq!(decode_name(m, 0), Ok(("www.example.com".to_string(), 17)));
    assert_eq!(decode_name(b"\x00", 0), Ok(("".to_string(), 1)));
    assert_eq!(decode_name(b"", 0), Err(Error::DnsLogParseFailed(DnsFault::PayloadTooShort)));
    assert_eq!(decode_name(b"\x03ww", 0), Err(Error::DnsLogParseFailed(DnsFault::NameIndex)));
    assert_eq!(decode_name(b"\x03www", 0), Err(Error::DnsLogParseFailed(DnsFault::NameIndex)));
    assert_eq!(decode_name(b"\x43www\x00", 0), Err(Error::DnsLogParseFailed(DnsFault::LabelType)));
    assert_eq!(decode_name(b"\x83www\x00", 0), Err(Error::DnsLogParseFailed(DnsFault::LabelType)));
    assert_eq!(decode_name(b"\xc0", 0), Err(Error::DnsLogParseFailed(DnsFault::NameIndex)));
    assert_eq!(
        decode_name(b"\x02\xff\xfe\x00", 0),
        Err(Error::DnsLogParseFailed(DnsFault::NameEncoding))
    );
    // a name may hold any UTF-8
    assert_eq!(decode_name("\u{3}b\u{fc}\u{0}".as_bytes(), 0), Ok(("b\u{fc}".to_string(), 5)));
    // five labels of 62 bytes make a name that is too long
    let mut long = Vec::new();
    for _ in 0..5 {
        long.push(62);
        long.extend_from_slice(&[b'a'; 62]);
    }
    long.push(0);
    assert_eq!(decode_name(&long, 0), Err(Error::DnsLogParseFailed(DnsFault::NameIndex)));
}

#[test]
fn answers_are_joined_with_semicolons() {
    let mut m = header(7, 0x8180, 1, 3, 1);
    question(&mut m, 28);
    record(&mut m, &[0xc0, 0x0c], 28, &[0x20, 0x01, 0x0d, 0xb8, 0, 0, 0, 0, 0, 0, 0, 0, 0, 0, 0, 1]);
    record(&mut m, &[0xc0, 0x0c], 1, &[10, 1, 2, 3]);
    record(&mut m, &[0xc0, 0x0c], 12, &[0xc0, 0x0c]);
    record(&mut m, &[0xc0, 0x0c], 2, b"\x02ns\xc0\x0c");
    let mut log = DnsLog::default();
    let head = single(log.parse(&m, IpProtocol::Udp, PacketDirection::ServerToClient));
    assert_eq!(head.msg_type, LogMessageType::Response);
    let info = dns_info(&log);
    assert_eq!(info.answers, "2001:db8::1;10.1.2.3;ns.example.com");
    assert_eq!(info.domain_type, 2);
}

#[test]
fn response_codes() {
    for (rcode, status) in [
        (0u16, L7ResponseStatus::Normal),
        (1, L7ResponseStatus::ClientError),
        (2, L7ResponseStatus::ServerError),
        (3, L7ResponseStatus::ClientError),
        (5, L7ResponseStatus::ServerError),
    ] {
        let mut m = header(1, 0x8180 | rcode, 1, 0, 0);
        question(&mut m, 1);
        let mut log = DnsLog::default();
        let head = single(log.parse(&m, IpProtocol::Udp, PacketDirection::ServerToClient));
        assert_eq!(head.status, status);
        assert_eq!(head.code, rcode);
    }
}

#[test]
fn malformed_messages() {
    let mut log = DnsLog::default();
    let short = header(1, 0x0100, 0, 0, 0);
    assert_eq!(
        log.parse(&short, IpProtocol::Udp, PacketDirection::ClientToServer).err(),
        Some(Error::DnsLogParseFailed(DnsFault::PayloadTooShort))
    );
    let mut m = header(1, 0x0100, 1, 0, 0);
    m.extend_from_slice(b"\x03com\x00\x00\x01");
    assert_eq!(
        log.parse(&m, IpProtocol::Udp, PacketDirection::ClientToServer).err(),
        Some(Error::DnsLogParseFailed(DnsFault::QuestionLength))
    );
    // an address record of three bytes
    let mut m = header(1, 0x8180, 1, 1, 0);
    question(&mut m, 1);
    record(&mut m, &[0xc0, 0x0c], 1, &[1, 2, 3]);
    assert_eq!(
        log.parse(&m, IpProtocol::Udp, PacketDirection::ServerToClient).err(),
        Some(Error::DnsLogParseFailed(DnsFault::DataLength))
    );
    // an address record that announces four bytes and has two
    let mut m = header(1, 0x8180, 1, 1, 0);
    question(&mut m, 1);
    record(&mut m, &[0xc0, 0x0c], 1, &[1, 2, 3, 4]);
    m.truncate(m.len() - 2);
    assert_eq!(
        log.parse(&m, IpProtocol::Udp, PacketDirection::ServerToClient).err(),
        Some(Error::DnsLogParseFailed(DnsFault::ResourceLength))
    );
    // a record of a type that is not rendered
    let mut m = header(1, 0x8180, 1, 1, 0);
    question(&mut m, 16);
    record(&mut m, &[0xc0, 0x0c], 16, b"\x04text");
    assert_eq!(
        log.parse(&m, IpProtocol::Udp, PacketDirection::ServerToClient).err(),
        Some(Error::DnsLogParseFailed(DnsFault::DataLength))
    );
    assert_eq!(
        log.parse(&query(), IpProtocol::Sctp, PacketDirection::ClientToServer).err(),
        Some(Error::DnsLogParseFailed(DnsFault::Framing))
    );
}

#[test]
fn over_tcp_a_length_goes_first() {
    let q = query();
    let mut framed = (q.len() as u16).to_be_bytes().to_vec();
    framed.extend_from_slice(&q);
    let mut log = DnsLog::default();
    let head = single(log.parse(&framed, IpProtocol::Tcp, PacketDirection::ClientToServer));
    assert_eq!(head.msg_type, LogMessageType::Request);
    assert_eq!(dns_info(&log).query_name, "example.com");
    // a length that does not cover the message
    let mut framed = ((q.len() - 1) as u16).to_be_bytes().to_vec();
    framed.extend_from_slice(&q);
    assert_eq!(
        log.parse(&framed, IpProtocol::Tcp, PacketDirection::ClientToServer).err(),
        Some(Error::DnsLogParseFailed(DnsFault::Framing))
    );
    assert_eq!(
        log.parse(&[0, 5], IpProtocol::Tcp, PacketDirection::ClientToServer).err(),
        Some(Error::DnsLogParseFailed(DnsFault::Framing))
    );
}

fn dns_probe(payload: &[u8], src_port: u16, dst_port: u16, protocol: u8) -> MetaPacket<'static> {
    let data = EbpfData {
        tuple: EbpfTuple {
            addr_len: 4,
            laddr: [0; 16],
            raddr: [0; 16],
            lport: src_port,
            rport: dst_port,
            protocol,
        },
        direction: 0,
        timestamp: 0,
        cap_len: payload.len() as u32,
        cap_data: payload.to_vec(),
        syscall_len: 0,
        process_id: 1,
        thread_id: 1,
        cap_seq: 0,
        syscall_trace_id_call: 0,
        process_name: String::new(),
        socket_id: 1,
        tcp_seq: 0,
        l7_protocal_hint: 0,
    };
    MetaPacket::from_ebpf(&data, 4096).unwrap()
}

#[test]
fn dns_sniffing() {
    let dns_bit = 1u128 << 120;
    let mut bitmap = u128::MAX;
    assert!(dns_check_protocol(&mut bitmap, &dns_probe(&query(), 40000, 53, 17)));
    assert_eq!(bitmap, u128::MAX);
    // a response is no query
    assert!(!dns_check_protocol(&mut bitmap, &dns_probe(&answer(), 40000, 53, 17)));
    assert_eq!(bitmap, u128::MAX);
    // from port 53: not a query, but DNS stays possible
    assert!(!dns_check_protocol(&mut bitmap, &dns_probe(&query(), 53, 40000, 17)));
    assert_eq!(bitmap, u128::MAX);
    // garbage over UDP to port 53 rules DNS out
    assert!(!dns_check_protocol(&mut bitmap, &dns_probe(b"garbage", 40000, 53, 17)));
    assert_eq!(bitmap, u128::MAX & !dns_bit);
    // and so does any other pair of ports
    let mut bitmap = dns_bit | 1;
    assert!(!dns_check_protocol(&mut bitmap, &dns_probe(&query(), 40000, 8080, 17)));
    assert_eq!(bitmap, 1);
}
