use deepflow_agent::enums::{IpProtocol, PacketDirection};
use deepflow_agent::error::Error;
use deepflow_agent::meta_packet::{EbpfData, EbpfTuple, MetaPacket};
use deepflow_agent::protocol_logs::{
    AppProtoHead, AppProtoHeadEnum, AppProtoLogsInfo, AppProtoLogsInfoEnum, L7LogParse,
    L7ResponseStatus, LogMessageType,
};
use deepflow_agent::redis::{
    decode, decode_asterisk, decode_dollor, decode_error_code, decode_integer, decode_str,
    find_separator, parse_integer, redis_check_protocol, RedisInfo, RedisLog,
};

#[test]
fn test_decode() {
    let payload = [b'*', b'-', b'1', b'\r', b'\n'];
    let (context, n, e) = decode(payload.as_slice(), true).unwrap();
    assert_eq!(context, "-1".as_bytes());
    assert_eq!(n, payload.len());
    assert_eq!(e, false);

    let payload = [
        b'*', b'3', b'\r', b'\n', b'$', b'3', b'\r', b'\n', b'S', b'E', b'T', b'\r', b'\n', b'$',
        b'5', b'\r', b'\n', b'm', b'y', b'k', b'e', b'y', b'\r', b'\n', b'$', b'7', b'\r', b'\n',
        b'm', b'y', b'v', b'a', b'l', b'u', b'e', b'\r', b'\n',
    ];

    let (context, n, e) = decode(payload.as_slice(), true).unwrap();
    assert_eq!(context, "SET mykey myvalue".as_bytes());
    assert_eq!(n, payload.len());
    assert_eq!(e, false);

    let payload = [b'$', b'0', b'\r', b'\n'];
    let (context, n, _) = decode(payload.as_slice(), true).unwrap();
    assert_eq!(context, "0".as_bytes());
    assert_eq!(n, payload.len());

    let payload = [b'$', b'-', b'1', b'\r', b'\n'];
    let (context, n, e) = decode(payload.as_slice(), false).unwrap();
    assert_eq!(context, "-1".as_bytes());
    assert_eq!(n, payload.len());
    assert_eq!(e, false);

    let payload = [b'$', b'9', b'\r', b'\n', b'1', b'2', b'3', b'4', b'5'];
    let (context, n, _) = decode(payload.as_slice(), false).unwrap();
    assert_eq!(context, "12345".as_bytes());
    assert_eq!(n, payload.len());

    let payload = [b'$', b'9', b'\r', b'\n', b'1', b'2', b'3', b'4', b'5'];
    assert_eq!(decode(payload.as_slice(), true), None);

    let payload = [b'-', b'1', b'\r', b'\n'];
    let (context, n, e) = decode(payload.as_slice(), true).unwrap();
    assert_eq!(context, "-1".as_bytes());
    assert_eq!(n, 2);
    assert_eq!(e, true);
}

#[test]
fn nil_and_empty_bulk_strings() {
    // no string at all, and a string of no length: the text of the length stands for them
    assert_eq!(decode_dollor(b"$-1\r\n", true), Some((b"-1".to_vec(), 5)));
    assert_eq!(decode_dollor(b"$0\r\n\r\n", true), Some((b"0".to_vec(), 4)));
    assert_eq!(decode(b"$-1\r\n", true), Some((b"-1".to_vec(), 5, false)));
    assert_eq!(decode(b"$0\r\n\r\n", true), Some((b"0".to_vec(), 4, false)));
    assert_eq!(decode(b"$0\r\n\r\n", false), Some((b"0".to_vec(), 4, false)));
    assert_eq!(decode_dollor(b"$3\r\nfoo\r\n", true), Some((b"foo".to_vec(), 9)));
    assert_eq!(decode_dollor(b"$3\r\nfoo\r\nrest", true), Some((b"foo".to_vec(), 9)));
    assert_eq!(decode_dollor(b"$3\r\nfoobar", true), None);
    assert_eq!(decode_dollor(b"$3\r\nfoobar", false), Some((b"foobar".to_vec(), 10)));
    assert_eq!(decode_dollor(b"$x\r\n", true), None);
    assert_eq!(decode_dollor(b"$3", true), None);
    assert_eq!(decode_dollor(b"$9223372036854775807\r\nx", false), Some((b"x".to_vec(), 23)));
}

#[test]
fn integers() {
    assert_eq!(parse_integer(b"0"), Some(0));
    assert_eq!(parse_integer(b"-0"), Some(0));
    assert_eq!(parse_integer(b"+17"), Some(17));
    assert_eq!(parse_integer(b"007"), Some(7));
    assert_eq!(parse_integer(b"-123"), Some(-123));
    assert_eq!(parse_integer(b"9223372036854775807"), Some(i64::MAX));
    assert_eq!(parse_integer(b"9223372036854775808"), None);
    assert_eq!(parse_integer(b"-9223372036854775808"), Some(i64::MIN));
    assert_eq!(parse_integer(b"-9223372036854775809"), None);
    assert_eq!(parse_integer(b"99999999999999999999999999"), None);
    assert_eq!(parse_integer(b""), None);
    assert_eq!(parse_integer(b"-"), None);
    assert_eq!(parse_integer(b"+"), None);
    assert_eq!(parse_integer(b"1 "), None);
    assert_eq!(parse_integer(b" 1"), None);
    assert_eq!(parse_integer(b"1a"), None);
    assert_eq!(parse_integer(b"--1"), None);
    for n in [0i64, 5, -5, 1234567890, i64::MAX, i64::MIN] {
        assert_eq!(parse_integer(n.to_string().as_bytes()), Some(n));
    }
    assert_eq!(decode_integer(b"12\r\nrest"), Some((12, 4)));
    assert_eq!(decode_integer(b"\r\n"), None);
    assert_eq!(decode_integer(b"12"), None);
    assert_eq!(find_separator(b"ab\r\ncd\r\n"), Some(2));
    assert_eq!(find_separator(b"ab\rcd\n"), None);
    assert_eq!(find_separator(b"\r"), None);
}

#[test]
fn lines_and_arrays() {
    assert_eq!(decode_str(b"+OK\r\n", 32), (b"+OK".to_vec(), 3));
    assert_eq!(decode_str(b"+OK", 32), (b"+OK".to_vec(), 3));
    assert_eq!(decode_str(b"+0123456789\r\n", 4), (b"+012".to_vec(), 4));
    let long = [b'-'; 300];
    assert_eq!(decode(&long, true).unwrap().0.len(), 256);
    assert_eq!(decode(b":1000\r\n", true), Some((b":1000".to_vec(), 5, false)));
    assert_eq!(decode(b"?what\r\n", true), None);
    assert_eq!(decode(b"+", true), None);
    assert_eq!(decode_asterisk(b"*0\r\n", true), Some((b"0".to_vec(), 4)));
    assert_eq!(
        decode_asterisk(b"*2\r\n$3\r\nGET\r\n$1\r\nk\r\n", true),
        Some((b"GET k".to_vec(), 20))
    );
    // arrays within arrays
    assert_eq!(
        decode_asterisk(b"*2\r\n*2\r\n$1\r\na\r\n$1\r\nb\r\n$1\r\nx\r\n", true),
        Some((b"a b x".to_vec(), 29))
    );
    // a line leaves its end unread, so nothing can follow it in an array
    assert_eq!(decode_asterisk(b"*2\r\n:1\r\n:2\r\n", true), Some((b":1".to_vec(), 6)));
    // an item that is cut off: what came before it stands
    assert_eq!(decode_asterisk(b"*2\r\n$3\r\nGET\r\n$5\r\nk", false), Some((b"GET k".to_vec(), 18)));
    assert_eq!(decode_asterisk(b"*2\r\n$3\r\nGET\r\n$5\r\nk", true), Some((b"GET".to_vec(), 13)));
    assert_eq!(decode_asterisk(b"*2\r\n$3\r\nGET\r\n", true), Some((b"GET".to_vec(), 13)));
    assert_eq!(decode_asterisk(b"*x\r\n", true), None);
    assert_eq!(decode_asterisk(b"*99999999999\r\n", true), Some((b"".to_vec(), 14)));
    assert_eq!(decode_error_code(b"ERR unknown command"), Some(b"ERR".to_vec()));
    assert_eq!(decode_error_code(b"WRONGTYPE\nrest"), Some(b"WRONGTYPE".to_vec()));
    assert_eq!(decode_error_code(b"ERR"), None);
}

fn single(r: Result<AppProtoHeadEnum, Error>) -> AppProtoHead {
    match r.unwrap() {
        AppProtoHeadEnum::Single(h) => h,
        AppProtoHeadEnum::Multi(_) => panic!("one head expected"),
    }
}

fn info(log: &RedisLog) -> RedisInfo {
    match log.info() {
        AppProtoLogsInfoEnum::Single(AppProtoLogsInfo::Redis(i)) => i,
        _ => panic!("one Redis record expected"),
    }
}

#[test]
fn requests_and_responses() {
    let mut log = RedisLog::default();
    let head = single(log.parse(
        b"*3\r\n$3\r\nSET\r\n$5\r\nmykey\r\n$7\r\nmyvalue\r\n",
        IpProtocol::Tcp,
        PacketDirection::ClientToServer,
    ));
    assert_eq!(head.msg_type, LogMessageType::Request);
    assert_eq!(head.status, L7ResponseStatus::Normal);
    assert_eq!(info(&log).request, b"SET mykey myvalue");
    assert_eq!(info(&log).request_type, b"SET");

    let head = single(log.parse(b"+OK\r\n", IpProtocol::Tcp, PacketDirection::ServerToClient));
    assert_eq!(head.msg_type, LogMessageType::Response);
    assert_eq!(head.status, L7ResponseStatus::Normal);
    assert_eq!(info(&log).status, b"+OK");
    assert_eq!(info(&log).request, b"");

    let head = single(log.parse(
        b"-ERR unknown command\r\n",
        IpProtocol::Tcp,
        PacketDirection::ServerToClient,
    ));
    assert_eq!(head.status, L7ResponseStatus::ServerError);
    assert_eq!(info(&log).error, b"-ERR unknown command");
    assert_eq!(info(&log).response, b"");

    // a bulk string that reads like an error is a result
    let head = single(log.parse(b"$2\r\n-1\r\n", IpProtocol::Tcp, PacketDirection::ServerToClient));
    assert_eq!(head.status, L7ResponseStatus::Normal);
    assert_eq!(info(&log).response, b"-1");
    assert_eq!(info(&log).error, b"");

    let head = single(log.parse(b":42\r\n", IpProtocol::Tcp, PacketDirection::ServerToClient));
    assert_eq!(head.status, L7ResponseStatus::Normal);
    assert_eq!(info(&log).response, b":42");

    assert_eq!(
        log.parse(b"nonsense", IpProtocol::Tcp, PacketDirection::ClientToServer).err(),
        Some(Error::RedisLogParseFailed)
    );
    assert_eq!(
        log.parse(b"+OK\r\n", IpProtocol::Udp, PacketDirection::ServerToClient).err(),
        Some(Error::InvalidIpProtocol)
    );

    let mut log = RedisLog::default();
    log.fill_request(b"PING".to_vec());
    assert_eq!(log.info.request_type, b"PING");
    log.fill_request(b" odd".to_vec());
    assert_eq!(log.info.request_type, b" odd");
    log.fill_request(b"GET a b".to_vec());
    assert_eq!(log.info.request_type, b"GET");
    log.fill_response(Vec::new(), false);
    assert_eq!(log.msg_type, LogMessageType::Response);
}

#[test]
fn redis_merging_a_response_into_a_request() {
    let mut request = RedisInfo::default();
    request.request = b"GET k".to_vec();
    request.request_type = b"GET".to_vec();
    let mut response = RedisInfo::default();
    response.response = b"v".to_vec();
    response.status = b"+OK".to_vec();
    response.error = b"-ERR".to_vec();
    response.request = b"ignored".to_vec();
    request.merge(response);
    assert_eq!(request.request, b"GET k");
    assert_eq!(request.request_type, b"GET");
    assert_eq!(request.response, b"v");
    assert_eq!(request.status, b"+OK");
    assert_eq!(request.error, b"-ERR");
}

fn redis_probe(payload: &[u8], protocol: u8) -> MetaPacket<'static> {
    let data = EbpfData {
        tuple: EbpfTuple {
            addr_len: 4,
            laddr: [0; 16],
            raddr: [0; 16],
            lport: 1,
            rport: 6379,
            protocol,
        },
        direction: 0,
        timestamp: 0,
        cap_len: payload.len() as u32,
        cap_data: payload.to_vec(),
        syscall_len: 0,
        process_id: 1,
        thread_id: 1,
        cap_seq: 0,
        syscall_trace_id_call: 0,
        process_name: String::new(),
        socket_id: 1,
        tcp_seq: 0,
        l7_protocal_hint: 0,
    };
    MetaPacket::from_ebpf(&data, 4096).unwrap()
}

#[test]
fn redis_sniffing() {
    let bit = 1u128 << 80;
    let mut bitmap = bit;
    assert!(redis_check_protocol(&mut bitmap, &redis_probe(b"*1\r\n$4\r\nPING\r\n", 6)));
    assert!(!redis_check_protocol(&mut bitmap, &redis_probe(b"+OK\r\n", 6)));
    assert!(!redis_check_protocol(&mut bitmap, &redis_probe(b"*x\r\n", 6)));
    assert!(!redis_check_protocol(&mut bitmap, &redis_probe(b"", 6)));
    assert_eq!(bitmap, bit);
    assert!(!redis_check_protocol(&mut bitmap, &redis_probe(b"*1\r\n$4\r\nPING\r\n", 17)));
    assert_eq!(bitmap, 0);
}
