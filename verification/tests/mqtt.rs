use deepflow_agent::enums::{IpProtocol, PacketDirection};
use deepflow_agent::error::Error;
use deepflow_agent::meta_packet::{EbpfData, EbpfTuple, MetaPacket};
use deepflow_agent::mqtt::{
    decode_variable_length, mqtt_check_protocol, mqtt_fixed_header, mqtt_packet_kind,
    mqtt_quality_of_service, mqtt_string, mqtt_subscription_ack, mqtt_subscription_acks,
    mqtt_subscription_requests,
    mqtt_unsubscription_requests, parse_connack_packet, parse_connect_packet, parse_status_code,
    topic_names,
    MqttInfo, MqttLog, MqttTopic, PacketHeader, PacketKind, QualityOfService, SubscriptionAck,
};
use deepflow_agent::protocol_logs::{
    AppProtoHeadEnum, AppProtoLogsBaseInfo, AppProtoLogsInfo, AppProtoLogsInfoEnum, L7LogParse,
    L7ResponseStatus, LogMessageType,
};

#[test]
fn check_variable_length_decoding() {
    let input = &[64];

    let output = decode_variable_length(input);
    assert_eq!(output, 64);

    let input = &[193, 2];

    let output = decode_variable_length(input);
    assert_eq!(output, 321);
}

#[test]
fn check_header_publish_flags() {
    let input = &[0b0011_1101, 0];

    let (header, used) = mqtt_fixed_header(input).unwrap();

    assert_eq!(input[used..].len(), 0);

    assert_eq!(
        header,
        PacketHeader {
            remaining_length: 0,
            kind: PacketKind::Publish {
                dup: true,
                qos: QualityOfService::ExactlyOnce,
                retain: true
            }
        }
    );
}

#[test]
fn check_invalid_header_publish_flags() {
    let input = &[0b0011_1111, 0];

    assert_eq!(mqtt_fixed_header(input), None);
}

#[test]
fn test_subscription() {
    let input = &[
        0, 3, // Length 3
        0x61, 0x2F, 0x62, // The string 'a/b'
        1,    // QoS 1
        0, 3, // Length 3
        0x63, 0x2F, 0x64, // The string 'c/d'
        2,    // QoS 2
    ];

    let (subs, used) = mqtt_subscription_requests(input).unwrap();
    let rest = &input[used..];

    assert_eq!(rest.len(), 0);
    assert_eq!(
        subs,
        vec![
            MqttTopic { name: "a/b".to_string(), qos: 1 },
            MqttTopic { name: "c/d".to_string(), qos: 2 }
        ]
    );
}

#[test]
fn check_connect_roundtrip() {
    let input = &[
        0b0001_0000,
        37,
        0x0,
        0x4, // String length
        b'M',
        b'Q',
        b'T',
        b'T',
        0x4,         // Level
        0b1111_0110, // Connect flags
        0x0,
        0x10, // Keel Alive in secs
        0x0,  // Client Identifier
        0x5,
        b'H',
        b'E',
        b'L',
        b'L',
        b'O',
        0x0, // Will Topic
        0x5,
        b'W',
        b'O',
        b'R',
        b'L',
        b'D',
        0x0, // Will Payload
        0x1,
        0xFF,
        0x0,
        0x5, // Username
        b'A',
        b'D',
        b'M',
        b'I',
        b'N',
        0x0,
        0x1, // Password
        0xF0,
    ];
    let (header, used) = mqtt_fixed_header(input).unwrap();
    assert_eq!(header.remaining_length, 37);
    match header.kind {
        PacketKind::Connect => {
            let data = &input[used..used + header.remaining_length as usize];
            let packet = parse_connect_packet(data).unwrap();
            assert_eq!(packet, (4, "HELLO".to_string()));
        }
        _ => panic!("a connection request expected"),
    }
}

#[test]
fn check_simple_string() {
    let input = [0x00, 0x05, 0x41, 0xF0, 0xAA, 0x9B, 0x94];

    let s = mqtt_string(&input);

    assert_eq!(s, Some(("A\u{2A6D4}".to_string(), 7)))
}

#[test]
fn strings_with_control_characters_are_rejected() {
    assert_eq!(mqtt_string(&[0, 2, b'a', 0x01]), None);
    assert_eq!(mqtt_string(&[0, 2, b'a', 0x1f]), None);
    assert_eq!(mqtt_string(&[0, 2, b'a', 0x7f]), None);
    assert_eq!(mqtt_string("\u{0}\u{3}a\u{80}".as_bytes()), None);
    assert_eq!(mqtt_string("\u{0}\u{3}a\u{9f}".as_bytes()), None);
    assert_eq!(mqtt_string("\u{0}\u{3}a\u{a0}".as_bytes()), Some(("a\u{a0}".to_string(), 5)));
    assert_eq!(mqtt_string(&[0, 2, b'a', 0x20]), Some(("a ".to_string(), 4)));
    assert_eq!(mqtt_string(&[0, 1, 0]), Some(("\u{0}".to_string(), 3)));
    // not UTF-8, too short, cut off
    assert_eq!(mqtt_string(&[0, 2, 0xff, 0xfe]), None);
    assert_eq!(mqtt_string(&[0]), None);
    assert_eq!(mqtt_string(&[0, 3, b'a', b'b']), None);
    assert_eq!(mqtt_string(&[0, 0, 9]), Some(("".to_string(), 2)));
}

#[test]
fn fixed_headers() {
    assert_eq!(mqtt_packet_kind(&[]), None);
    assert_eq!(mqtt_packet_kind(&[0x10]), Some(PacketKind::Connect));
    assert_eq!(mqtt_packet_kind(&[0x11]), None);
    assert_eq!(mqtt_packet_kind(&[0x62]), Some(PacketKind::Pubrel));
    assert_eq!(mqtt_packet_kind(&[0x60]), None);
    assert_eq!(mqtt_packet_kind(&[0x82]), Some(PacketKind::Subscribe));
    assert_eq!(mqtt_packet_kind(&[0xa2]), Some(PacketKind::Unsubscribe));
    assert_eq!(mqtt_packet_kind(&[0xe0]), Some(PacketKind::Disconnect));
    assert_eq!(mqtt_packet_kind(&[0x00]), None);
    assert_eq!(mqtt_packet_kind(&[0xf0]), None);
    assert_eq!(
        mqtt_packet_kind(&[0x32]),
        Some(PacketKind::Publish { dup: false, qos: QualityOfService::AtLeastOnce, retain: false })
    );
    // a remaining length of two bytes: 193 has the continuation bit
    let (header, used) = mqtt_fixed_header(&[0xc0, 193, 2, 9, 9]).unwrap();
    assert_eq!(header, PacketHeader { kind: PacketKind::Pingreq, remaining_length: 321 });
    assert_eq!(used, 3);
    let (header, used) = mqtt_fixed_header(&[0xc0, 0xff, 0xff, 0xff, 0x7f]).unwrap();
    assert_eq!(header.remaining_length, 268_435_455);
    assert_eq!(used, 5);
    // a fifth byte is one too many, and a length that is cut off is none
    assert_eq!(mqtt_fixed_header(&[0xc0, 0xff, 0xff, 0xff, 0xff, 0x01]), None);
    assert_eq!(mqtt_fixed_header(&[0xc0, 0x80]), None);
    assert_eq!(mqtt_fixed_header(&[0xc0]), None);
    assert_eq!(mqtt_quality_of_service(2), Ok(QualityOfService::ExactlyOnce));
    assert_eq!(mqtt_quality_of_service(3), Err(3));
}

#[test]
fn connection_packets() {
    assert_eq!(parse_connack_packet(&[0, 5]), Some(5));
    assert_eq!(parse_connack_packet(&[1, 0]), Some(0));
    assert_eq!(parse_connack_packet(&[2, 0]), None);
    assert_eq!(parse_connack_packet(&[0]), None);
    assert_eq!(parse_status_code(0), L7ResponseStatus::Normal);
    assert_eq!(parse_status_code(1), L7ResponseStatus::ClientError);
    assert_eq!(parse_status_code(2), L7ResponseStatus::ClientError);
    assert_eq!(parse_status_code(3), L7ResponseStatus::ServerError);
    assert_eq!(parse_status_code(4), L7ResponseStatus::ClientError);
    assert_eq!(parse_status_code(5), L7ResponseStatus::ClientError);
    assert_eq!(parse_status_code(6), L7ResponseStatus::NotExist);
    // another protocol name, and a request that is cut off
    assert_eq!(parse_connect_packet(b"\x00\x04MQTX\x04\x02\x00\x3c\x00\x01a"), None);
    assert_eq!(parse_connect_packet(b"\x00\x04MQTT\x04"), None);
    assert_eq!(parse_connect_packet(b"\x00\x04MQTT\x04\x02\x00\x3c"), None);
    assert_eq!(
        parse_connect_packet(b"\x00\x04MQTT\x05\x02\x00\x3c\x00\x01a"),
        Some((5, "a".to_string()))
    );
    assert_eq!(
        mqtt_unsubscription_requests(b"\x00\x01a\x00\x02bc\x00"),
        Some((
            vec![
                MqttTopic { name: "a".to_string(), qos: -1 },
                MqttTopic { name: "bc".to_string(), qos: -1 }
            ],
            7
        ))
    );
    assert_eq!(mqtt_unsubscription_requests(b"\x00"), None);
    // a quality of service that is none ends the list
    assert_eq!(mqtt_subscription_requests(b"\x00\x01a\x03"), None);
}

fn connect() -> Vec<u8> {
    let mut p = vec![0x10, 20];
    p.extend_from_slice(b"\x00\x04MQTT\x04\x02\x00\x3c\x00\x08sensor-7");
    p
}

fn publish(first: u8) -> Vec<u8> {
    let mut p = vec![first, 8];
    p.extend_from_slice(b"\x00\x03a/b\x00\x01x");
    p
}

fn infos(log: &MqttLog) -> Vec<MqttInfo> {
    match log.info() {
        AppProtoLogsInfoEnum::Single(AppProtoLogsInfo::Mqtt(i)) => vec![i],
        AppProtoLogsInfoEnum::Multi(v) => v
            .into_iter()
            .map(|i| match i {
                AppProtoLogsInfo::Mqtt(i) => i,
                _ => panic!("an MQTT record expected"),
            })
            .collect(),
        _ => panic!("an MQTT record expected"),
    }
}

#[test]
fn connect_publish_disconnect() {
    let mut log = MqttLog::default();
    let mut base = AppProtoLogsBaseInfo::new();
    base.flow_id = 1234;

    let head = log.parse(&connect(), IpProtocol::Tcp, PacketDirection::ClientToServer).unwrap();
    match head {
        AppProtoHeadEnum::Single(h) => {
            assert_eq!(h.msg_type, LogMessageType::Request);
            assert_eq!(h.version, 4);
        }
        _ => panic!("one head expected"),
    }
    assert_eq!(log.version, 4);
    let info = infos(&log).remove(0);
    assert_eq!(info.client_id, Some("sensor-7".to_string()));
    assert_eq!(info.pkt_type, PacketKind::Connect);
    assert_eq!(info.req_msg_size, 20);
    assert_eq!(info.res_msg_size, -1);
    let data = log
        .amend_mqtt_proto_log_and_generate_log_data(AppProtoLogsInfo::Mqtt(info), base.clone())
        .unwrap();
    assert_eq!(data.base_info.flow_id, 1234);
    assert_eq!(log.client_map.get(&1234), Some(&"sensor-7".to_string()));

    log.parse(&publish(0x32), IpProtocol::Tcp, PacketDirection::ClientToServer).unwrap();
    let info = infos(&log).remove(0);
    assert_eq!(info.client_id, None);
    assert_eq!(info.publish_topic, Some("a/b".to_string()));
    assert_eq!(info.req_msg_size, 8);
    assert_eq!(info.version, 4);
    let data = log
        .amend_mqtt_proto_log_and_generate_log_data(AppProtoLogsInfo::Mqtt(info), base.clone())
        .unwrap();
    match data.special_info {
        AppProtoLogsInfo::Mqtt(ref i) => assert_eq!(i.client_id, Some("sensor-7".to_string())),
        _ => panic!("an MQTT record expected"),
    }
    let wire = data.to_wire();
    match wire.special {
        deepflow_agent::wire::WireAppProtoLogsInfo::Mqtt(m) => {
            assert_eq!(m.mqtt_type, "PUBLISH");
            assert_eq!(m.client_id, "sensor-7");
            assert_eq!(m.topics, vec![MqttTopic { name: "a/b".to_string(), qos: -1 }]);
            assert_eq!(m.proto_version, 4);
        }
        _ => panic!("an MQTT record expected"),
    }

    // the same packet on a flow that has not connected is rejected
    let mut stranger = AppProtoLogsBaseInfo::new();
    stranger.flow_id = 99;
    let info = infos(&log).remove(0);
    assert_eq!(
        log.amend_mqtt_proto_log_and_generate_log_data(AppProtoLogsInfo::Mqtt(info), stranger)
            .err(),
        Some(Error::MqttLogParseFailed)
    );

    let head = log.parse(&[0xe0, 0], IpProtocol::Tcp, PacketDirection::ClientToServer).unwrap();
    match head {
        AppProtoHeadEnum::Single(h) => assert_eq!(h.msg_type, LogMessageType::Session),
        _ => panic!("one head expected"),
    }
    let info = infos(&log).remove(0);
    assert_eq!(info.pkt_type, PacketKind::Disconnect);
    let data = log
        .amend_mqtt_proto_log_and_generate_log_data(AppProtoLogsInfo::Mqtt(info), base.clone())
        .unwrap();
    match data.special_info {
        AppProtoLogsInfo::Mqtt(ref i) => assert_eq!(i.client_id, Some("sensor-7".to_string())),
        _ => panic!("an MQTT record expected"),
    }
    assert_eq!(log.client_map.get(&1234), None);
    assert!(log.client_map.is_empty());
}

#[test]
fn duplicate_publish_at_most_once_is_malformed() {
    let mut log = MqttLog::default();
    // dup = 1, qos = 0
    assert_eq!(
        log.parse(&publish(0x38), IpProtocol::Tcp, PacketDirection::ClientToServer).err(),
        Some(Error::MqttLogParseFailed)
    );
    assert_eq!(log.status, L7ResponseStatus::Error);
    assert!(log.info.is_empty());
    // dup = 1, qos = 1 is fine
    assert!(log.parse(&publish(0x3a), IpProtocol::Tcp, PacketDirection::ClientToServer).is_ok());
    assert_eq!(log.status, L7ResponseStatus::Normal);
    // qos = 0 without dup is a response
    match log.parse(&publish(0x30), IpProtocol::Tcp, PacketDirection::ClientToServer).unwrap() {
        AppProtoHeadEnum::Single(h) => assert_eq!(h.msg_type, LogMessageType::Response),
        _ => panic!("one head expected"),
    }
    assert_eq!(log.info[0].res_msg_size, 8);
    assert_eq!(log.info[0].req_msg_size, -1);
}

#[test]
fn several_packets_in_one_payload() {
    let mut payload = publish(0x32);
    payload.extend_from_slice(&[0x40, 2, 0, 1]);
    payload.extend_from_slice(&[0xc0, 0]);
    let mut log = MqttLog::default();
    match log.parse(&payload, IpProtocol::Tcp, PacketDirection::ClientToServer).unwrap() {
        AppProtoHeadEnum::Multi(heads) => {
            assert_eq!(heads.len(), 3);
            assert_eq!(heads[0].msg_type, LogMessageType::Request);
            assert_eq!(heads[1].msg_type, LogMessageType::Response);
            assert_eq!(heads[2].msg_type, LogMessageType::Request);
        }
        _ => panic!("several heads expected"),
    }
    let all = infos(&log);
    assert_eq!(all.len(), 3);
    assert_eq!(all[1].pkt_type, PacketKind::Puback);
    assert_eq!(all[1].res_msg_size, 2);
    assert_eq!(all[2].pkt_type, PacketKind::Pingreq);

    // a malformed packet behind a good one: the good one is kept, the parse fails
    let mut payload = publish(0x32);
    payload.extend_from_slice(&[0x00, 0]);
    assert_eq!(
        log.parse(&payload, IpProtocol::Tcp, PacketDirection::ClientToServer).err(),
        Some(Error::MqttLogParseFailed)
    );
    assert_eq!(log.info.len(), 1);
    assert_eq!(log.status, L7ResponseStatus::Error);
}

#[test]
fn other_versions_and_transports() {
    let mut log = MqttLog::default();
    assert_eq!(
        log.parse(&connect(), IpProtocol::Udp, PacketDirection::ClientToServer).err(),
        Some(Error::InvalidIpProtocol)
    );
    let mut v5 = connect();
    v5[8] = 5;
    assert!(log.parse(&v5, IpProtocol::Tcp, PacketDirection::ClientToServer).is_ok());
    assert_eq!(log.version, 5);
    // from now on nothing is parsed on this flow
    assert_eq!(
        log.parse(&publish(0x32), IpProtocol::Tcp, PacketDirection::ClientToServer).err(),
        Some(Error::MqttLogParseFailed)
    );
    // a connection acknowledgement sets the status
    let mut log = MqttLog::default();
    match log.parse(&[0x20, 2, 0, 5], IpProtocol::Tcp, PacketDirection::ServerToClient).unwrap() {
        AppProtoHeadEnum::Single(h) => {
            assert_eq!(h.status, L7ResponseStatus::ClientError);
            assert_eq!(h.code, 5);
        }
        _ => panic!("one head expected"),
    }
    // with nothing parsed the parser holds a blank record
    let log = MqttLog::default();
    let blank = infos(&log).remove(0);
    assert_eq!(blank.pkt_type, PacketKind::Disconnect);
    assert_eq!(blank.req_msg_size, -1);
}

#[test]
fn mqtt_merging_a_response_into_a_request() {
    let mut request = MqttInfo::default();
    request.pkt_type = PacketKind::Subscribe;
    request.req_msg_size = 10;
    request.client_id = Some("c".to_string());
    let mut response = MqttInfo::default();
    response.pkt_type = PacketKind::Suback;
    response.res_msg_size = 3;
    response.publish_topic = Some("ignored".to_string());
    request.merge(response);
    assert_eq!(request.res_msg_size, 3);
    assert_eq!(request.req_msg_size, 10);
    assert_eq!(request.publish_topic, None);
    let mut response = MqttInfo::default();
    response.pkt_type =
        PacketKind::Publish { dup: false, qos: QualityOfService::AtMostOnce, retain: false };
    response.publish_topic = Some("t".to_string());
    request.merge(response);
    assert_eq!(request.publish_topic, Some("t".to_string()));
}

fn mqtt_probe(payload: &[u8], protocol: u8) -> MetaPacket<'static> {
    let data = EbpfData {
        tuple: EbpfTuple {
            addr_len: 4,
            laddr: [0; 16],
            raddr: [0; 16],
            lport: 1,
            rport: 1883,
            protocol,
        },
        direction: 0,
        timestamp: 0,
        cap_len: payload.len() as u32,
        cap_data: payload.to_vec(),
        syscall_len: 0,
        process_id: 1,
        thread_id: 1,
        cap_seq: 0,
        syscall_trace_id_call: 0,
        process_name: String::new(),
        socket_id: 1,
        tcp_seq: 0,
        l7_protocal_hint: 0,
    };
    MetaPacket::from_ebpf(&data, 4096).unwrap()
}

#[test]
fn mqtt_sniffing() {
    let bit = 1u128 << 101;
    let mut bitmap = bit;
    assert!(mqtt_check_protocol(&mut bitmap, &mqtt_probe(&connect(), 6)));
    assert_eq!(bitmap, bit);
    assert!(!mqtt_check_protocol(&mut bitmap, &mqtt_probe(&publish(0x32), 6)));
    assert_eq!(bitmap, bit);
    let mut v6 = connect();
    v6[8] = 6;
    assert!(!mqtt_check_protocol(&mut bitmap, &mqtt_probe(&v6, 6)));
    let mut cut = connect();
    cut.truncate(12);
    assert!(!mqtt_check_protocol(&mut bitmap, &mqtt_probe(&cut, 6)));
    assert_eq!(bitmap, bit);
    assert!(!mqtt_check_protocol(&mut bitmap, &mqtt_probe(&connect(), 17)));
    assert_eq!(bitmap, 0);
}

#[test]
fn grants_of_subscriptions() {
    assert_eq!(mqtt_subscription_ack(&[0]), Some(SubscriptionAck::MaximumQualityAtMostOnce));
    assert_eq!(mqtt_subscription_ack(&[1, 9]), Some(SubscriptionAck::MaximumQualityAtLeastOnce));
    assert_eq!(mqtt_subscription_ack(&[2]), Some(SubscriptionAck::MaximumQualityExactlyOnce));
    assert_eq!(mqtt_subscription_ack(&[0x80]), Some(SubscriptionAck::Failure));
    assert_eq!(mqtt_subscription_ack(&[3]), None);
    assert_eq!(mqtt_subscription_ack(&[]), None);
    assert_eq!(
        mqtt_subscription_acks(&[0, 0x80, 2, 1]),
        Some(vec![
            SubscriptionAck::MaximumQualityAtMostOnce,
            SubscriptionAck::Failure,
            SubscriptionAck::MaximumQualityExactlyOnce,
            SubscriptionAck::MaximumQualityAtLeastOnce,
        ])
    );
    assert_eq!(
        mqtt_subscription_acks(&[1, 7, 1]),
        Some(vec![SubscriptionAck::MaximumQualityAtLeastOnce])
    );
    assert_eq!(mqtt_subscription_acks(&[7, 1]), None);
    assert_eq!(mqtt_subscription_acks(&[]), None);
}

#[test]
fn names_of_topics() {
    let topic = |name: &str, qos: i32| MqttTopic { name: name.to_string(), qos };
    assert_eq!(topic_names(&Vec::new()), "");
    assert_eq!(topic_names(&vec![topic("a/b", 1)]), "a/b");
    assert_eq!(topic_names(&vec![topic("a/b", 1), topic("", 0), topic("c", 2)]), "a/b,,c");
}
