use deepflow_agent::enums::{EthernetType, HeaderType, IpProtocol, PacketDirection};
use deepflow_agent::error::Error;
use deepflow_agent::meta_packet::{EbpfData, EbpfTuple, MetaPacket, SOCK_DIR_RCV, SOCK_DIR_SND};
use deepflow_agent::net::{IpAddr, MacAddr};

fn ethernet(ether_type: u16, tags: &[u16]) -> Vec<u8> {
    let mut f = vec![0x02, 0, 0, 0, 0, 0x02, 0x02, 0, 0, 0, 0, 0x01];
    for tag in tags {
        f.extend_from_slice(&[0x81, 0x00]);
        f.extend_from_slice(&tag.to_be_bytes());
    }
    f.extend_from_slice(&ether_type.to_be_bytes());
    f
}

fn ipv4(f: &mut Vec<u8>, ihl: u8, total_len: u16, frag: u16, proto: u8) {
    f.push(0x40 | ihl);
    f.push(0);
    f.extend_from_slice(&total_len.to_be_bytes());
    f.extend_from_slice(&[0x12, 0x34]);
    f.extend_from_slice(&frag.to_be_bytes());
    f.push(64);
    f.push(proto);
    f.extend_from_slice(&[0, 0]);
    f.extend_from_slice(&[10, 0, 0, 1]);
    f.extend_from_slice(&[10, 0, 0, 2]);
    for _ in 5..ihl {
        f.extend_from_slice(&[1, 1, 1, 1]);
    }
}

fn tcp(f: &mut Vec<u8>, data_offset: u8, flags: u8, options: &[u8]) {
    f.extend_from_slice(&40000u16.to_be_bytes());
    f.extend_from_slice(&80u16.to_be_bytes());
    f.extend_from_slice(&0x01020304u32.to_be_bytes());
    f.extend_from_slice(&0x0a0b0c0du32.to_be_bytes());
    f.push(data_offset << 4);
    f.push(flags);
    f.extend_from_slice(&8192u16.to_be_bytes());
    f.extend_from_slice(&[0, 0, 0, 0]);
    f.extend_from_slice(options);
}

fn decode<'a>(frame: &'a [u8], dst_endpoint: bool) -> (MetaPacket<'a>, Result<(), Error>) {
    let mut p = MetaPacket::empty();
    let wire = frame.len();
    let r = p.update(frame, !dst_endpoint, dst_endpoint, 1_000, wire);
    (p, r)
}

#[test]
fn get_pkt_size() {
    let pkt = MetaPacket {
        packet_len: 65530,
        ..Default::default()
    };
    assert_eq!(pkt.get_pkt_size(), 65530);
    let pkt = MetaPacket {
        packet_len: 131072,
        ..Default::default()
    };
    assert_eq!(pkt.get_pkt_size(), 65535);
}

#[test]
fn restored_packet_size_leaves_outer_tag_out() {
    let mut pkt = MetaPacket::new();
    pkt.packet_len = 100;
    pkt.vlan_tag_size = 8;
    assert_eq!(pkt.get_restored_packet_size(), 96);
    pkt.vlan_tag_size = 4;
    assert_eq!(pkt.get_restored_packet_size(), 100);
    pkt.packet_len = 0;
    pkt.vlan_tag_size = 8;
    assert_eq!(pkt.get_restored_packet_size(), 0);
    pkt.packet_len = 2;
    assert_eq!(pkt.get_restored_packet_size(), 0);
}

#[test]
fn tcp_syn_with_options() {
    let mut f = ethernet(0x0800, &[]);
    ipv4(&mut f, 5, 52, 0x4000, 6);
    tcp(&mut f, 8, 0x02, &[2, 4, 0x05, 0xb4, 4, 2, 1, 3, 3, 7, 0, 0]);
    assert_eq!(f.len(), 66);
    let (p, r) = decode(&f, false);
    assert_eq!(r, Ok(()));
    assert_eq!(p.header_type, HeaderType::Ipv4Tcp);
    assert_eq!(p.lookup_key.eth_type, EthernetType::Ipv4);
    assert_eq!(p.lookup_key.proto, IpProtocol::Tcp);
    assert_eq!(p.lookup_key.timestamp, 1_000);
    assert_eq!(p.lookup_key.src_mac, MacAddr { value: 0x0200_0000_0001 });
    assert_eq!(p.lookup_key.dst_mac, MacAddr { value: 0x0200_0000_0002 });
    assert_eq!(p.lookup_key.src_ip, IpAddr::V4(0x0a00_0001));
    assert_eq!(p.lookup_key.dst_ip, IpAddr::V4(0x0a00_0002));
    assert_eq!(p.lookup_key.src_port, 40000);
    assert_eq!(p.lookup_key.dst_port, 80);
    assert!(p.lookup_key.l2_end_0);
    assert!(!p.lookup_key.l2_end_1);
    assert_eq!(p.ttl, 64);
    assert_eq!(p.packet_len, 66);
    assert_eq!(p.payload_len, 0);
    assert_eq!(p.l3_payload_len(), 32);
    assert_eq!(p.l4_payload_len(), 0);
    assert_eq!(p.tcp_data.seq, 0x01020304);
    assert_eq!(p.tcp_data.ack, 0x0a0b0c0d);
    assert_eq!(p.tcp_data.flags.bits, 0x02);
    assert_eq!(p.tcp_data.win_size, 8192);
    assert_eq!(p.tcp_data.data_offset, 8);
    assert_eq!(p.tcp_data.mss, 1460);
    assert_eq!(p.tcp_data.win_scale, 7);
    assert!(p.tcp_data.sack_permitted);
    assert_eq!(p.tcp_data.sack, None);
    assert_eq!(p.tcp_options_flag, 0xe0);
    assert_eq!(p.tcp_opt_mss_offset, 56);
    assert_eq!(p.tcp_opt_win_scale_offset, 63);
    assert_eq!(p.tcp_options_size(), 4);
    assert!(p.is_syn());
    assert!(!p.is_syn_ack());
    assert!(!p.npb_ignore_l4);
    assert_eq!(p.get_l4_payload(), None);
    assert_eq!(p.offset_ip_0, 26);
    assert_eq!(p.offset_port_1, 36);
}

#[test]
fn tcp_payload_and_sack_blocks() {
    let mut f = ethernet(0x0800, &[]);
    ipv4(&mut f, 5, 20 + 32 + 5, 0, 6);
    tcp(&mut f, 8, 0x18, &[1, 1, 5, 10, 1, 2, 3, 4, 5, 6, 7, 8]);
    f.extend_from_slice(b"hello");
    let (p, r) = decode(&f, true);
    assert_eq!(r, Ok(()));
    assert_eq!(p.header_type, HeaderType::Ipv4Tcp);
    assert_eq!(p.tcp_data.sack, Some(vec![1, 2, 3, 4, 5, 6, 7, 8]));
    assert_eq!(p.tcp_opt_sack_offset, 58);
    assert_eq!(p.tcp_options_flag, 8);
    assert_eq!(p.tcp_options_size(), 9);
    assert_eq!(p.payload_len, 5);
    assert_eq!(p.get_l4_payload(), Some(&b"hello"[..]));
    assert!(p.is_psh_ack());
    assert!(p.has_valid_payload());
    assert!(p.is_reversed());
    // captured at the receiving station: the offsets change places
    assert_eq!(p.offset_mac_0, 0);
    assert_eq!(p.offset_mac_1, 6);
    assert_eq!(p.offset_ip_0, 30);
    assert_eq!(p.offset_ip_1, 26);
    assert_eq!(p.offset_port_0, 36);
    assert_eq!(p.offset_port_1, 34);
}

#[test]
fn tcp_bare_header_skips_option_walk() {
    let mut f = ethernet(0x0800, &[]);
    ipv4(&mut f, 5, 20 + 20 + 4, 0, 6);
    tcp(&mut f, 5, 0x10, &[]);
    // what follows the header is payload, although it looks like an MSS option
    f.extend_from_slice(&[2, 4, 0x05, 0xb4]);
    let (p, r) = decode(&f, false);
    assert_eq!(r, Ok(()));
    assert_eq!(p.header_type, HeaderType::Ipv4Tcp);
    assert_eq!(p.tcp_data.data_offset, 5);
    assert_eq!(p.tcp_data.mss, 0);
    assert_eq!(p.tcp_options_flag, 0);
    assert_eq!(p.tcp_opt_mss_offset, 0);
    assert_eq!(p.payload_len, 4);
    assert_eq!(p.get_l4_payload(), Some(&[2u8, 4, 0x05, 0xb4][..]));
}

#[test]
fn ipv4_fragment_leaves_layer_4_alone() {
    // more fragments, offset zero
    let mut f = ethernet(0x0800, &[]);
    ipv4(&mut f, 5, 40, 0x2000, 6);
    tcp(&mut f, 5, 0x02, &[]);
    let (p, r) = decode(&f, false);
    assert_eq!(r, Ok(()));
    assert!(p.npb_ignore_l4);
    assert_eq!(p.header_type, HeaderType::Ipv4);
    assert_eq!(p.lookup_key.proto, IpProtocol::Tcp);
    assert_eq!(p.lookup_key.src_port, 0);
    assert_eq!(p.lookup_key.dst_port, 0);
    assert_eq!(p.tcp_data.seq, 0);
    assert_eq!(p.tcp_data.flags.bits, 0);
    assert_eq!(p.l3_payload_len(), 20);
    assert_eq!(p.l4_payload_len(), 20);

    // a later fragment
    let mut f = ethernet(0x0800, &[]);
    ipv4(&mut f, 5, 40, 0x0010, 17);
    f.extend_from_slice(&[0; 20]);
    let (p, r) = decode(&f, false);
    assert_eq!(r, Ok(()));
    assert!(p.npb_ignore_l4);
    assert_eq!(p.header_type, HeaderType::Ipv4);
    assert_eq!(p.lookup_key.src_port, 0);

    // the don't-fragment bit alone makes no fragment
    let mut f = ethernet(0x0800, &[]);
    ipv4(&mut f, 5, 40, 0x4000, 6);
    tcp(&mut f, 5, 0x02, &[]);
    let (p, _) = decode(&f, false);
    assert!(!p.npb_ignore_l4);
    assert_eq!(p.header_type, HeaderType::Ipv4Tcp);
}

#[test]
fn unknown_ether_type_is_the_only_error() {
    let f = ethernet(0x1234, &[]);
    let (p, r) = decode(&f, false);
    assert_eq!(r, Err(Error::ParsePacketFailed));
    assert_eq!(p.header_type, HeaderType::Invalid);
    assert_eq!(p.packet_len, 14);

    let f = ethernet(0x1234, &[100]);
    let (p, r) = decode(&f, false);
    assert_eq!(r, Err(Error::ParsePacketFailed));
    assert_eq!(p.vlan, 100);

    // a recognised type that the decoder does not look into
    let f = ethernet(0x88cc, &[]);
    let (p, r) = decode(&f, false);
    assert_eq!(r, Ok(()));
    assert_eq!(p.header_type, HeaderType::Eth);
    assert_eq!(p.lookup_key.eth_type, EthernetType::LinkLayerDiscovery);
}

#[test]
fn truncated_frames_are_accepted() {
    let mut p = MetaPacket::empty();
    assert_eq!(p.update(&[], false, false, 7, 0), Ok(()));
    assert_eq!(p.header_type, HeaderType::Invalid);
    assert_eq!(p.lookup_key.timestamp, 7);

    let mut full = ethernet(0x0800, &[]);
    ipv4(&mut full, 5, 52, 0, 6);
    tcp(&mut full, 8, 0x02, &[2, 4, 0x05, 0xb4, 4, 2, 1, 3, 3, 7, 0, 0]);
    let mut last = 0u8;
    for n in 0..=full.len() {
        let (p, r) = decode(&full[..n], false);
        assert_eq!(r, Ok(()), "cut at {}", n);
        // the header type only rises as more of the frame is there
        assert!(p.header_type.code() >= last, "cut at {}", n);
        last = p.header_type.code();
        if n < 14 {
            assert_eq!(p.header_type, HeaderType::Invalid);
        } else if n < 34 {
            assert_eq!(p.header_type, HeaderType::Eth);
        } else if n < 66 {
            assert_eq!(p.header_type, HeaderType::Ipv4);
            assert_eq!(p.lookup_key.src_ip, IpAddr::V4(0x0a00_0001));
            assert_eq!(p.lookup_key.src_port, 0);
        } else {
            assert_eq!(p.header_type, HeaderType::Ipv4Tcp);
        }
        if (34..66).contains(&n) {
            assert!(p.npb_ignore_l4, "cut at {}", n);
        }
    }
}

#[test]
fn vlan_tags() {
    let mut f = ethernet(0x0800, &[0x2064]);
    ipv4(&mut f, 5, 28, 0, 17);
    f.extend_from_slice(&[0x00, 0x35, 0x30, 0x39, 0, 8, 0, 0]);
    let (p, r) = decode(&f, false);
    assert_eq!(r, Ok(()));
    assert_eq!(p.vlan, 0x064);
    assert_eq!(p.vlan_tag_size, 4);
    assert_eq!(p.header_type, HeaderType::Ipv4Udp);
    assert_eq!(p.lookup_key.src_port, 53);
    assert_eq!(p.lookup_key.dst_port, 12345);
    assert_eq!(p.l2_l3_opt_size, 4);
    assert_eq!(p.packet_len, 28 + 14 + 4);
    assert_eq!(p.offset_ip_0, 30);
    assert_eq!(p.offset_port_0, 38);

    // two tags: the inner VLAN id is recorded
    let mut f = ethernet(0x0800, &[100, 200]);
    ipv4(&mut f, 5, 28, 0, 17);
    f.extend_from_slice(&[0x00, 0x35, 0x30, 0x39, 0, 8, 0, 0]);
    let (p, r) = decode(&f, false);
    assert_eq!(r, Ok(()));
    assert_eq!(p.vlan, 200);
    assert_eq!(p.vlan_tag_size, 8);
    assert_eq!(p.header_type, HeaderType::Ipv4Udp);
    assert_eq!(p.lookup_key.eth_type, EthernetType::Ipv4);
    assert_eq!(p.lookup_key.src_port, 53);
    assert_eq!(p.get_restored_packet_size(), (28 + 14 + 8 - 4) as u16);
}

#[test]
fn udp_payload() {
    let mut f = ethernet(0x0800, &[]);
    ipv4(&mut f, 6, 24 + 8 + 3, 0, 17);
    f.extend_from_slice(&[0x30, 0x39, 0x00, 0x35, 0, 11, 0, 0]);
    f.extend_from_slice(b"abc");
    let (p, r) = decode(&f, false);
    assert_eq!(r, Ok(()));
    assert_eq!(p.header_type, HeaderType::Ipv4Udp);
    assert_eq!(p.data_offset_ihl_or_fl4b, 6);
    assert_eq!(p.l2_l3_opt_size, 4);
    assert_eq!(p.lookup_key.src_port, 12345);
    assert_eq!(p.lookup_key.dst_port, 53);
    assert_eq!(p.payload_len, 3);
    assert_eq!(p.get_l4_payload(), Some(&b"abc"[..]));
}

#[test]
fn zero_total_length_stands_for_the_frame() {
    let mut f = ethernet(0x0800, &[]);
    ipv4(&mut f, 5, 0, 0, 17);
    f.extend_from_slice(&[0x30, 0x39, 0x00, 0x35, 0, 0, 0, 0]);
    f.extend_from_slice(&[0; 100]);
    let (p, r) = decode(&f, false);
    assert_eq!(r, Ok(()));
    assert_eq!(p.packet_len, f.len());
    assert_eq!(p.payload_len, 100);
}

#[test]
fn wire_length_of_joined_segments_is_trusted() {
    let mut f = ethernet(0x0800, &[]);
    ipv4(&mut f, 5, 40, 0, 6);
    tcp(&mut f, 5, 0x10, &[]);
    let mut p = MetaPacket::empty();
    assert_eq!(p.update(&f, true, false, 0, 54 + 16), Ok(()));
    assert_eq!(p.packet_len, 54);
    let mut p = MetaPacket::empty();
    assert_eq!(p.update(&f, true, false, 0, 54 + 17), Ok(()));
    assert_eq!(p.packet_len, 71);
    assert_eq!(p.payload_len, 0);
}

#[test]
fn icmp_destination_unreachable_has_rest() {
    let mut f = ethernet(0x0800, &[]);
    ipv4(&mut f, 5, 20 + 8 + 4 + 6, 0, 1);
    f.extend_from_slice(&[3, 1, 0, 0, 0, 0, 0, 0]);
    f.extend_from_slice(&[0, 0, 0, 0]);
    f.extend_from_slice(&[9; 6]);
    let (p, r) = decode(&f, false);
    assert_eq!(r, Ok(()));
    assert_eq!(p.header_type, HeaderType::Ipv4ControlMessage);
    assert_eq!(p.l4_opt_size, 4);
    assert_eq!(p.payload_len, 6);

    // an echo request has none
    let mut f = ethernet(0x0800, &[]);
    ipv4(&mut f, 5, 20 + 8 + 10, 0, 1);
    f.extend_from_slice(&[8, 0, 0, 0, 0, 0, 0, 0]);
    f.extend_from_slice(&[9; 10]);
    let (p, r) = decode(&f, false);
    assert_eq!(r, Ok(()));
    assert_eq!(p.header_type, HeaderType::Ipv4ControlMessage);
    assert_eq!(p.l4_opt_size, 0);
    assert_eq!(p.payload_len, 10);

    // the rest is cut off
    let mut f = ethernet(0x0800, &[]);
    ipv4(&mut f, 5, 20 + 8 + 2, 0, 1);
    f.extend_from_slice(&[12, 0, 0, 0, 0, 0, 0, 0, 0, 0]);
    let (p, r) = decode(&f, false);
    assert_eq!(r, Ok(()));
    assert_eq!(p.header_type, HeaderType::Ipv4);
    assert_eq!(p.l4_opt_size, 0);
}

fn ipv6(f: &mut Vec<u8>, payload_len: u16, next_header: u8, src_first: u8) {
    f.extend_from_slice(&[0x60, 0, 0, 0]);
    f.extend_from_slice(&payload_len.to_be_bytes());
    f.push(next_header);
    f.push(255);
    f.push(src_first);
    f.push(0x80);
    f.extend_from_slice(&[0; 13]);
    f.push(1);
    f.extend_from_slice(&[0x20, 0x01, 0x0d, 0xb8]);
    f.extend_from_slice(&[0; 11]);
    f.push(2);
}

#[test]
fn ipv6_extension_headers() {
    let mut f = ethernet(0x86dd, &[]);
    // hop-by-hop (8 bytes), fragment (8 bytes), then UDP
    ipv6(&mut f, 8 + 8 + 8 + 2, 0, 0x20);
    f.extend_from_slice(&[44, 0, 0, 0, 0, 0, 0, 0]);
    f.extend_from_slice(&[17, 0, 0, 0, 0, 0, 0, 0]);
    f.extend_from_slice(&[0x30, 0x39, 0x00, 0x35, 0, 10, 0, 0]);
    f.extend_from_slice(b"hi");
    let (p, r) = decode(&f, false);
    assert_eq!(r, Ok(()));
    assert_eq!(p.header_type, HeaderType::Ipv6Udp);
    assert_eq!(p.lookup_key.eth_type, EthernetType::Ipv6);
    assert_eq!(p.lookup_key.proto, IpProtocol::Udp);
    assert_eq!(p.next_header, 0);
    assert_eq!(p.offset_ipv6_last_option, 62);
    assert_eq!(p.offset_ipv6_fragment_option, 62);
    assert_eq!(p.l2_l3_opt_size, 20 + 16);
    assert_eq!(p.ttl, 255);
    assert_eq!(p.lookup_key.src_ip, IpAddr::V6(0x2080_0000_0000_0000_0000_0000_0000_0001));
    assert_eq!(p.lookup_key.dst_ip, IpAddr::V6(0x2001_0db8_0000_0000_0000_0000_0000_0002));
    assert_eq!(p.lookup_key.src_port, 12345);
    assert_eq!(p.lookup_key.dst_port, 53);
    assert_eq!(p.packet_len, 54 + 26);
    assert_eq!(p.payload_len, 2);
    assert_eq!(p.get_l4_payload(), Some(&b"hi"[..]));

    // an extension header that runs past the frame counts for nothing
    let mut f = ethernet(0x86dd, &[]);
    ipv6(&mut f, 8, 0, 0x20);
    f.extend_from_slice(&[17, 5, 0, 0, 0, 0, 0, 0]);
    let (p, r) = decode(&f, false);
    assert_eq!(r, Ok(()));
    assert_eq!(p.offset_ipv6_last_option, 0);
    assert_eq!(p.lookup_key.proto, IpProtocol::Ipv6HopByHop);
    assert_eq!(p.header_type, HeaderType::Ipv6);
    assert_eq!(p.l2_l3_opt_size, 20);
}

#[test]
fn neighbour_advertisement() {
    let mut f = ethernet(0x86dd, &[]);
    ipv6(&mut f, 24, 58, 0x20);
    f.push(136);
    f.extend_from_slice(&[0; 23]);
    let (p, r) = decode(&f, false);
    assert_eq!(r, Ok(()));
    assert_eq!(p.lookup_key.proto, IpProtocol::ControlMessageV6);
    assert!(p.nd_reply_or_arp_request);
    assert!(p.is_ndp_response());
    assert_eq!(p.header_type, HeaderType::Ipv6);
    assert_eq!(p.payload_len, 24);

    // from a link-local address it does not count
    let mut f = ethernet(0x86dd, &[]);
    ipv6(&mut f, 24, 58, 0xfe);
    f.push(136);
    f.extend_from_slice(&[0; 23]);
    let (p, _) = decode(&f, false);
    assert!(!p.nd_reply_or_arp_request);

    // a neighbour solicitation is no advertisement
    let mut f = ethernet(0x86dd, &[]);
    ipv6(&mut f, 24, 58, 0x20);
    f.push(135);
    f.extend_from_slice(&[0; 23]);
    let (p, _) = decode(&f, false);
    assert!(!p.nd_reply_or_arp_request);
}

#[test]
fn arp_request() {
    let mut f = ethernet(0x0806, &[]);
    f.extend_from_slice(&[0, 1, 8, 0, 6, 4, 0, 1]);
    f.extend_from_slice(&[2, 0, 0, 0, 0, 1]);
    f.extend_from_slice(&[192, 168, 0, 1]);
    f.extend_from_slice(&[0; 6]);
    f.extend_from_slice(&[192, 168, 0, 2]);
    let (p, r) = decode(&f, false);
    assert_eq!(r, Ok(()));
    assert_eq!(p.header_type, HeaderType::Arp);
    assert_eq!(p.lookup_key.src_ip, IpAddr::V4(0xc0a8_0001));
    assert_eq!(p.lookup_key.dst_ip, IpAddr::V4(0xc0a8_0002));
    assert!(p.nd_reply_or_arp_request);
    assert!(!p.is_ndp_response());
    assert_eq!(p.offset_ip_0, 28);
    assert_eq!(p.offset_ip_1, 38);

    f[21] = 2;
    let (p, _) = decode(&f, false);
    assert!(!p.nd_reply_or_arp_request);
}

#[test]
fn unknown_ip_protocol_stops_without_error() {
    let mut f = ethernet(0x0800, &[]);
    ipv4(&mut f, 5, 40, 0, 200);
    f.extend_from_slice(&[0; 20]);
    let (p, r) = decode(&f, false);
    assert_eq!(r, Ok(()));
    assert_eq!(p.header_type, HeaderType::Ipv4);
    assert_eq!(p.lookup_key.proto, IpProtocol::Ipv6HopByHop);
    assert_eq!(p.l3_payload_len(), 20);
}

#[test]
fn reset_makes_ready_again() {
    let mut f = ethernet(0x0800, &[]);
    ipv4(&mut f, 5, 40, 0, 6);
    tcp(&mut f, 5, 0x12, &[]);
    let mut p = MetaPacket::empty();
    assert_eq!(p.update(&f, false, true, 5, f.len()), Ok(()));
    assert!(p.is_syn_ack());
    p.reset();
    assert_eq!(p.header_type, HeaderType::Invalid);
    assert_eq!(p.offset_ip_0, 26);
    assert_eq!(p.offset_port_0, 34);
    assert_eq!(p.raw, None);
    assert_eq!(p.update(&f, true, false, 6, f.len()), Ok(()));
    assert_eq!(p.lookup_key.src_port, 40000);
    assert!(!p.is_ack());
}

#[test]
fn timestamp_adjust_moves_both_ways() {
    let mut p = MetaPacket::new();
    p.lookup_key.timestamp = 5_000_000_000;
    p.timestamp_adjust(1_500_000_000);
    assert_eq!(p.lookup_key.timestamp, 6_500_000_000);
    p.timestamp_adjust(-6_000_000_000);
    assert_eq!(p.lookup_key.timestamp, 500_000_000);
}

#[test]
fn loopback_mac() {
    let mut p = MetaPacket::new();
    p.lookup_key.src_ip = IpAddr::V4(0x7f00_0001);
    p.lookup_key.dst_ip = IpAddr::V4(0x0a00_0001);
    p.set_loopback_mac(MacAddr { value: 0x1122_3344_5566 });
    assert_eq!(p.lookup_key.src_mac, MacAddr { value: 0x1122_3344_5566 });
    assert_eq!(p.lookup_key.dst_mac, MacAddr { value: 0 });
    let mut p = MetaPacket::new();
    p.lookup_key.dst_ip = IpAddr::V6(1);
    p.set_loopback_mac(MacAddr { value: 7 });
    assert_eq!(p.lookup_key.dst_mac, MacAddr { value: 7 });
    assert_eq!(p.lookup_key.src_mac, MacAddr { value: 0 });
}

fn probe(direction: u8, protocol: u8) -> EbpfData {
    let mut laddr = [0u8; 16];
    laddr[..4].copy_from_slice(&[10, 0, 0, 1]);
    let mut raddr = [0u8; 16];
    raddr[..4].copy_from_slice(&[10, 0, 0, 2]);
    EbpfData {
        tuple: EbpfTuple { addr_len: 4, laddr, raddr, lport: 5000, rport: 3306, protocol },
        direction,
        timestamp: 1_000_000,
        cap_len: 5,
        cap_data: b"hello world".to_vec(),
        syscall_len: 100,
        process_id: 42,
        thread_id: 43,
        cap_seq: 9,
        syscall_trace_id_call: 77,
        process_name: "mysqld".to_string(),
        socket_id: 0x0102_0304_0506_0708,
        tcp_seq: 0x1_0000_0005,
        l7_protocal_hint: 60,
    }
}

#[test]
fn packet_from_kernel_probe() {
    let p = MetaPacket::from_ebpf(&probe(SOCK_DIR_SND, 6), 1024).unwrap();
    assert_eq!(p.lookup_key.timestamp, 1_000_000_000);
    assert_eq!(p.lookup_key.src_ip, IpAddr::V4(0x0a00_0001));
    assert_eq!(p.lookup_key.dst_ip, IpAddr::V4(0x0a00_0002));
    assert_eq!(p.lookup_key.src_port, 5000);
    assert_eq!(p.lookup_key.dst_port, 3306);
    assert_eq!(p.lookup_key.eth_type, EthernetType::Ipv4);
    assert_eq!(p.lookup_key.proto, IpProtocol::Tcp);
    assert!(p.lookup_key.l2_end_0);
    assert!(!p.lookup_key.l2_end_1);
    assert_eq!(p.raw_from_ebpf, b"hello".to_vec());
    assert_eq!(p.packet_len, 154);
    assert_eq!(p.payload_len, 5);
    assert_eq!(p.l4_payload_len(), 5);
    assert_eq!(p.tap_port.value, 42 + (7u64 << 60));
    assert_eq!(p.process_name, "mysqld");
    assert_eq!(p.tcp_data.seq, 5);
    assert_eq!(p.direction, PacketDirection::ClientToServer);
    assert_eq!(p.get_l4_payload(), Some(&b"hello"[..]));
    assert_eq!(p.ebpf_flow_id(), 0x0102_0304_0506_0708u128 | (60u128 << 64));

    let p = MetaPacket::from_ebpf(&probe(SOCK_DIR_RCV, 6), 3).unwrap();
    assert_eq!(p.lookup_key.src_ip, IpAddr::V4(0x0a00_0002));
    assert_eq!(p.lookup_key.dst_port, 5000);
    assert!(p.lookup_key.l2_end_1);
    assert_eq!(p.raw_from_ebpf, b"hel".to_vec());

    assert_eq!(MetaPacket::from_ebpf(&probe(SOCK_DIR_SND, 200), 3).err(), Some(Error::InvalidIpProtocol));
}

#[test]
fn control_message_of_version_four_behind_version_six() {
    // next header 1 has no place behind IPv6: the header type stays that of IPv6
    let mut f = ethernet(0x86dd, &[]);
    ipv6(&mut f, 8, 1, 0x20);
    f.extend_from_slice(&[8, 0, 0, 0, 0, 1, 0, 1]);
    assert_eq!(f.len(), 62);
    let (p, r) = decode(&f, false);
    assert_eq!(r, Ok(()));
    assert_eq!(p.lookup_key.eth_type, EthernetType::Ipv6);
    assert_eq!(p.lookup_key.proto, IpProtocol::ControlMessage);
    assert_eq!(p.header_type, HeaderType::Ipv6);
}
