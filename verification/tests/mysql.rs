use deepflow_agent::enums::{IpProtocol, PacketDirection};
use deepflow_agent::error::Error;
use deepflow_agent::flow::L7Protocol;
use deepflow_agent::meta_packet::{EbpfData, EbpfTuple, MetaPacket};
use deepflow_agent::mysql::{mysql_check_protocol, mysql_string, MysqlHeader, MysqlInfo, MysqlLog};
use deepflow_agent::protocol_logs::{
    AppProtoHead, AppProtoHeadEnum, AppProtoLogsBaseInfo, AppProtoLogsData, AppProtoLogsInfo,
    AppProtoLogsInfoEnum, L7LogParse, L7ResponseStatus, LogMessageType,
};

fn message(seq: u8, body: &[u8]) -> Vec<u8> {
    let len = body.len() as u32;
    let mut m = vec![len as u8, (len >> 8) as u8, (len >> 16) as u8, seq];
    m.extend_from_slice(body);
    m
}

fn query(sql: &str) -> Vec<u8> {
    let mut body = vec![3];
    body.extend_from_slice(sql.as_bytes());
    message(0, &body)
}

fn single(r: Result<AppProtoHeadEnum, Error>) -> AppProtoHead {
    match r.unwrap() {
        AppProtoHeadEnum::Single(h) => h,
        AppProtoHeadEnum::Multi(_) => panic!("one head expected"),
    }
}

fn info(log: &MysqlLog) -> MysqlInfo {
    match log.info() {
        AppProtoLogsInfoEnum::Single(AppProtoLogsInfo::Mysql(i)) => i,
        _ => panic!("one MySQL record expected"),
    }
}

#[test]
fn request_then_ok_with_eight_byte_row_count() {
    let mut log = MysqlLog::default();
    let head = single(log.parse(
        &query("UPDATE t SET a = 1"),
        IpProtocol::Tcp,
        PacketDirection::ClientToServer,
    ));
    assert_eq!(head.proto, L7Protocol::Mysql);
    assert_eq!(head.msg_type, LogMessageType::Request);
    assert_eq!(info(&log).command, 3);
    assert_eq!(info(&log).context, "UPDATE t SET a = 1");
    assert_eq!(log.l7_proto, L7Protocol::Mysql);

    // an OK packet: 0xfe announces eight bytes, least significant first
    let mut body = vec![0x00, 0xfe];
    body.extend_from_slice(&0x0102_0304_0506_0708u64.to_le_bytes());
    body.extend_from_slice(&[0, 2, 0, 0, 0]);
    let head = single(log.parse(&message(1, &body), IpProtocol::Tcp, PacketDirection::ServerToClient));
    assert_eq!(head.msg_type, LogMessageType::Response);
    assert_eq!(head.status, L7ResponseStatus::Normal);
    assert_eq!(head.code, 0);
    assert_eq!(info(&log).response_code, 0);
    assert_eq!(info(&log).affected_rows, 0x0102_0304_0506_0708);
}

#[test]
fn length_encoded_integers() {
    assert_eq!(MysqlLog::decode_compress_int(&[]), 0);
    assert_eq!(MysqlLog::decode_compress_int(&[0x05]), 5);
    assert_eq!(MysqlLog::decode_compress_int(&[0xfa, 9, 9]), 0xfa);
    assert_eq!(MysqlLog::decode_compress_int(&[0xfb, 9, 9]), 0xfb);
    assert_eq!(MysqlLog::decode_compress_int(&[0xfc, 0x34, 0x12, 0]), 0x1234);
    assert_eq!(MysqlLog::decode_compress_int(&[0xfd, 0x56, 0x34, 0x12, 0]), 0x12_3456);
    assert_eq!(
        MysqlLog::decode_compress_int(&[0xfe, 1, 0, 0, 0, 0, 0, 0, 0x80, 0]),
        0x8000_0000_0000_0001
    );
    // the bytes are read whenever they are all there
    assert_eq!(MysqlLog::decode_compress_int(&[0xfc, 0x34, 0x12]), 0x1234);
    assert_eq!(MysqlLog::decode_compress_int(&[0xfd, 0x56, 0x34, 0x12]), 0x12_3456);
    assert_eq!(
        MysqlLog::decode_compress_int(&[0xfe, 1, 0, 0, 0, 0, 0, 0, 0x80]),
        0x8000_0000_0000_0001
    );
    // cut off, the first byte is taken as the number
    assert_eq!(MysqlLog::decode_compress_int(&[0xfc, 0x34]), 0xfc);
    assert_eq!(MysqlLog::decode_compress_int(&[0xfd, 0x56, 0x34]), 0xfd);
    assert_eq!(MysqlLog::decode_compress_int(&[0xfe, 1, 0, 0, 0, 0, 0, 0]), 0xfe);
}

#[test]
fn error_responses() {
    for (code, status) in [
        (1064u16, L7ResponseStatus::ServerError),
        (2003, L7ResponseStatus::ClientError),
        (2000, L7ResponseStatus::ClientError),
        (2999, L7ResponseStatus::ClientError),
        (3000, L7ResponseStatus::ServerError),
        (1999, L7ResponseStatus::ServerError),
    ] {
        let mut log = MysqlLog::default();
        log.parse(&query("select"), IpProtocol::Tcp, PacketDirection::ClientToServer).unwrap();
        let mut body = vec![0xff];
        body.extend_from_slice(&code.to_le_bytes());
        body.extend_from_slice(b"#42000You have an error");
        let head =
            single(log.parse(&message(1, &body), IpProtocol::Tcp, PacketDirection::ServerToClient));
        assert_eq!(head.status, status);
        assert_eq!(head.code, code);
        assert_eq!(info(&log).error_code, code);
        assert_eq!(info(&log).error_message, "You have an error");
        assert_eq!(info(&log).response_code, 0xff);
    }
    // without the marker of an SQL state the message begins behind the code
    let mut log = MysqlLog::default();
    log.parse(&query("select"), IpProtocol::Tcp, PacketDirection::ClientToServer).unwrap();
    let head = single(log.parse(
        &message(1, b"\xff\x28\x04Unknown"),
        IpProtocol::Tcp,
        PacketDirection::ServerToClient,
    ));
    assert_eq!(head.code, 1064);
    assert_eq!(info(&log).error_message, "Unknown");
    // an error response of one byte has no code and no message
    let head =
        single(log.parse(&message(1, b"\xff"), IpProtocol::Tcp, PacketDirection::ServerToClient));
    assert_eq!(head.status, L7ResponseStatus::Normal);
    assert_eq!(info(&log).error_message, "");

    // the record of an error response carries the error code in its head
    let mut log = MysqlLog::default();
    log.parse(&query("select"), IpProtocol::Tcp, PacketDirection::ClientToServer).unwrap();
    log.parse(
        &message(1, b"\xff\x28\x04#42000oops"),
        IpProtocol::Tcp,
        PacketDirection::ServerToClient,
    )
    .unwrap();
    let mut data = AppProtoLogsData::new(
        AppProtoLogsBaseInfo::new(),
        AppProtoLogsInfo::Mysql(MysqlInfo::default()),
    );
    log.get_log_data_special_info(&mut data);
    assert_eq!(data.base_info.head.code, 1064);
    match data.special_info {
        AppProtoLogsInfo::Mysql(ref i) => assert_eq!(i.error_message, "oops"),
        _ => panic!("a MySQL record expected"),
    }
}

#[test]
fn greeting() {
    let mut body = vec![10];
    body.extend_from_slice(b"8.0.26\0");
    body.extend_from_slice(&0x0000_0102u32.to_le_bytes());
    body.extend_from_slice(&[0; 8]);
    let mut log = MysqlLog::default();
    let head = single(log.parse(&message(0, &body), IpProtocol::Tcp, PacketDirection::ServerToClient));
    assert_eq!(head.msg_type, LogMessageType::Other);
    assert_eq!(info(&log).protocol_version, 10);
    assert_eq!(info(&log).server_version, "8.0.26");
    assert_eq!(info(&log).server_thread_id, 0x102);
    assert_eq!(log.l7_proto, L7Protocol::Mysql);

    // another protocol version is no greeting
    body[0] = 9;
    let mut log = MysqlLog::default();
    assert_eq!(
        log.parse(&message(0, &body), IpProtocol::Tcp, PacketDirection::ServerToClient).err(),
        Some(Error::MysqlLogParseFailed)
    );
    // a greeting whose thread id is cut off
    let mut log = MysqlLog::default();
    assert_eq!(
        log.parse(&message(0, b"\x0a8.0\0\x01\x02\x03"), IpProtocol::Tcp, PacketDirection::ServerToClient)
            .err(),
        Some(Error::MysqlLogParseFailed)
    );
    assert_eq!(log.greeting(b"\x0a8.0\0\x01\x02\x03\x04"), Ok(()));
    assert_eq!(log.greeting(b"\x0a\0\x01\x02\x03\x04"), Err(Error::MysqlLogParseFailed));
    assert_eq!(log.greeting(b"\x0a8.0"), Err(Error::MysqlLogParseFailed));
    assert_eq!(log.greeting(b""), Err(Error::MysqlLogParseFailed));
}

#[test]
fn requests() {
    let mut log = MysqlLog::default();
    assert_eq!(log.request(&[1]), Ok(()));
    assert_eq!(log.info.command, 1);
    assert_eq!(log.request(b"\x02shop"), Ok(()));
    assert_eq!(log.info.context, "shop");
    assert_eq!(log.request(b"\x16\x00\x01select ?"), Ok(()));
    assert_eq!(log.info.context, "select ?");
    assert_eq!(log.request(&[0x1c]), Ok(()));
    assert_eq!(log.request(&[0x0e]), Err(Error::MysqlLogParseFailed));
    assert_eq!(log.request(&[]), Err(Error::MysqlLogParseFailed));
    assert_eq!(mysql_string(b"\x00\x01ab"), "ab");
    assert_eq!(mysql_string(b"\x00\x01"), "\u{0}\u{1}");
    assert_eq!(mysql_string(b"ab"), "ab");
    assert_eq!(mysql_string(b"a\xffb"), "a\u{fffd}b");
}

#[test]
fn what_is_not_taken() {
    let mut log = MysqlLog::default();
    assert_eq!(
        log.parse(&query("select 1"), IpProtocol::Udp, PacketDirection::ClientToServer).err(),
        Some(Error::InvalidIpProtocol)
    );
    assert_eq!(
        log.parse(&[1, 0, 0, 0], IpProtocol::Tcp, PacketDirection::ClientToServer).err(),
        Some(Error::MysqlLogParseFailed)
    );
    // a response on a flow that is not known to be MySQL
    assert_eq!(
        log.parse(&message(1, b"\x00\x00\x00"), IpProtocol::Tcp, PacketDirection::ServerToClient)
            .err(),
        Some(Error::MysqlLogParseFailed)
    );
    // a later packet of the client
    log.parse(&query("select 1"), IpProtocol::Tcp, PacketDirection::ClientToServer).unwrap();
    assert_eq!(
        log.parse(&message(1, b"\x00more"), IpProtocol::Tcp, PacketDirection::ClientToServer).err(),
        Some(Error::MysqlLogParseFailed)
    );
    // a message of no length
    assert_eq!(
        log.parse(&[0, 0, 0, 0, 3], IpProtocol::Tcp, PacketDirection::ClientToServer).err(),
        Some(Error::MysqlLogParseFailed)
    );
}

#[test]
fn headers() {
    let mut h = MysqlHeader::default();
    assert_eq!(h.decode(&[1, 2, 3, 4]), -1);
    assert_eq!(h.decode(&[5, 0, 0, 0, 3, b'a']), 4);
    assert_eq!(h, MysqlHeader { length: 5, number: 0 });
    // a message that is neither first nor a response is skipped
    let mut h = MysqlHeader::default();
    let mut payload = message(2, b"\x01\x02");
    payload.extend_from_slice(&message(3, b"\xfe\x00\x00"));
    assert_eq!(h.decode(&payload), 6 + 4);
    assert_eq!(h, MysqlHeader { length: 3, number: 3 });
    let mut h = MysqlHeader::default();
    assert_eq!(h.decode(&message(2, b"\x01\x02")), 0);
    assert_eq!(h, MysqlHeader { length: 0, number: 0 });
    assert_eq!(
        MysqlHeader { length: 1, number: 0 }.check(
            PacketDirection::ClientToServer,
            4,
            &[1, 0, 0, 0, 3],
            L7Protocol::Unknown
        ),
        Some(LogMessageType::Request)
    );
    assert_eq!(
        MysqlHeader { length: 1, number: 0 }.check(
            PacketDirection::ClientToServer,
            5,
            &[1, 0, 0, 0, 3],
            L7Protocol::Unknown
        ),
        None
    );
}

fn mysql_probe(payload: &[u8], protocol: u8) -> MetaPacket<'static> {
    let data = EbpfData {
        tuple: EbpfTuple {
            addr_len: 4,
            laddr: [0; 16],
            raddr: [0; 16],
            lport: 1,
            rport: 3306,
            protocol,
        },
        direction: 0,
        timestamp: 0,
        cap_len: payload.len() as u32,
        cap_data: payload.to_vec(),
        syscall_len: 0,
        process_id: 1,
        thread_id: 1,
        cap_seq: 0,
        syscall_trace_id_call: 0,
        process_name: String::new(),
        socket_id: 1,
        tcp_seq: 0,
        l7_protocal_hint: 0,
    };
    MetaPacket::from_ebpf(&data, 4096).unwrap()
}

#[test]
fn mysql_sniffing() {
    let bit = 1u128 << 60;
    let mut bitmap = bit | 2;
    assert!(mysql_check_protocol(&mut bitmap, &mysql_probe(&query("select 1"), 6)));
    assert_eq!(bitmap, bit | 2);
    // not ASCII
    assert!(!mysql_check_protocol(&mut bitmap, &mysql_probe(&query("select '\u{fc}'"), 6)));
    // another command
    assert!(!mysql_check_protocol(&mut bitmap, &mysql_probe(&message(0, b"\x01"), 6)));
    // a length that the payload does not cover
    let mut long = query("select 1");
    long[0] += 1;
    assert!(!mysql_check_protocol(&mut bitmap, &mysql_probe(&long, 6)));
    assert_eq!(bitmap, bit | 2);
    // too short for a header
    assert!(!mysql_check_protocol(&mut bitmap, &mysql_probe(&[1, 0, 0, 0], 6)));
    assert_eq!(bitmap, 2);
    let mut bitmap = bit;
    assert!(!mysql_check_protocol(&mut bitmap, &mysql_probe(&query("select 1"), 17)));
    assert_eq!(bitmap, 0);
}

#[test]
fn mysql_merging_a_response_into_a_request() {
    let mut request = MysqlInfo::default();
    request.command = 3;
    request.context = "select 1".to_string();
    let mut response = MysqlInfo::default();
    response.response_code = 0xff;
    response.error_code = 1064;
    response.error_message = "oops".to_string();
    response.affected_rows = 3;
    response.context = "ignored".to_string();
    request.merge(response);
    assert_eq!(request.context, "select 1");
    assert_eq!(request.command, 3);
    assert_eq!(request.response_code, 0xff);
    assert_eq!(request.error_code, 1064);
    assert_eq!(request.error_message, "oops");
    assert_eq!(request.affected_rows, 3);
}
