use deepflow_agent::enums::{
    EthernetType, HeaderType, IpProtocol, TapType, TcpFlags, TridentType, TunnelType, TCP_ACK,
    TCP_FIN, TCP_PSH_ACK, TCP_RST, TCP_SYN, TCP_SYN_ACK,
};
use deepflow_agent::tap_port::{TapPort, FROM_EBPF, FROM_LOCAL_MAC};

#[test]
fn ethernet_types() {
    for (t, code) in [
        (EthernetType::Llc, 0u16),
        (EthernetType::Ipv4, 0x0800),
        (EthernetType::Arp, 0x0806),
        (EthernetType::Ipv6, 0x86dd),
        (EthernetType::Dot1Q, 0x8100),
        (EthernetType::QinQ, 0x88a8),
        (EthernetType::MplsUnicast, 0x8847),
        (EthernetType::LinkLayerDiscovery, 0x88cc),
    ] {
        assert_eq!(t.code(), code);
        assert_eq!(EthernetType::from_code(code), Some(t));
    }
    assert_eq!(EthernetType::from_code(0x0801), None);
    assert_eq!(EthernetType::from_code(0xffff), None);
}

#[test]
fn ip_protocols() {
    for (p, code) in [
        (IpProtocol::Ipv6HopByHop, 0u8),
        (IpProtocol::ControlMessage, 1),
        (IpProtocol::Tcp, 6),
        (IpProtocol::Udp, 17),
        (IpProtocol::Ipv6Routing, 43),
        (IpProtocol::Ipv6Fragment, 44),
        (IpProtocol::Gre, 47),
        (IpProtocol::Esp, 50),
        (IpProtocol::Ah, 51),
        (IpProtocol::ControlMessageV6, 58),
        (IpProtocol::NoNextHeader, 59),
        (IpProtocol::Ipv6Destination, 60),
        (IpProtocol::Sctp, 132),
    ] {
        assert_eq!(p.code(), code);
        assert_eq!(IpProtocol::from_code(code), Some(p));
    }
    assert_eq!(IpProtocol::from_code(3), None);
    assert_eq!(IpProtocol::from_code(255), None);
}

#[test]
fn header_types() {
    let all = [
        (HeaderType::Eth, 0x01u8, 14usize, 14usize),
        (HeaderType::Arp, 0x02, 42, 28),
        (HeaderType::Ipv4, 0x20, 34, 20),
        (HeaderType::Ipv4ControlMessage, 0x21, 42, 8),
        (HeaderType::Ipv6, 0x40, 34, 40),
        (HeaderType::Ipv4Tcp, 0x80, 54, 20),
        (HeaderType::Ipv4Udp, 0x81, 42, 8),
        (HeaderType::Ipv6Tcp, 0xb0, 54, 20),
        (HeaderType::Ipv6Udp, 0xb1, 42, 8),
    ];
    for (t, code, packet, header) in all {
        assert_eq!(t.code(), code);
        assert_eq!(t.min_packet_size(), packet);
        assert_eq!(t.min_header_size(), header);
    }
    assert_eq!(HeaderType::Invalid.code(), 0);
}

#[test]
fn flags_of_tcp() {
    let f = TcpFlags::from_bits_truncate(0xff);
    assert_eq!(f.bits(), 0x3f);
    let f = TcpFlags::from_bits_truncate(TCP_SYN_ACK);
    assert!(f.contains(TCP_SYN));
    assert!(f.contains(TCP_ACK));
    assert!(f.contains(TCP_SYN_ACK));
    assert!(!f.contains(TCP_PSH_ACK));
    assert!(!f.contains(TCP_FIN));
    assert!(f.contains(0));
    assert_eq!(f.union(TcpFlags::from_bits_truncate(TCP_RST)).bits(), 0x16);
    assert_eq!(TcpFlags::empty().bits(), 0);
    assert_eq!(TcpFlags::default(), TcpFlags::empty());
}

#[test]
fn where_packets_are_captured() {
    assert_eq!(TapType::Any.code(), 0);
    assert_eq!(TapType::Isp(7).code(), 7);
    assert_eq!(TapType::Tor.code(), 3);
    assert_eq!(TapType::Max.code(), 256);
    assert_eq!(TapType::default(), TapType::Any);
    let port = TapPort::from_ebpf(4242);
    assert_eq!(port.value, 0x7000_0000_0000_0000 + 4242);
    assert!(port.is_from(FROM_EBPF));
    assert!(!port.is_from(FROM_LOCAL_MAC));
    assert!(TapPort::default().is_from(FROM_LOCAL_MAC));
    assert_eq!((TunnelType::NoTunnel.code(), TunnelType::Vxlan.code(), TunnelType::Ipip.code()), (0, 1, 2));
    assert_eq!((TunnelType::TencentGre.code(), TunnelType::ErspanOrTeb.code()), (3, 4));
}

#[test]
fn kinds_of_agents() {
    for t in [TridentType::TtUnknown, TridentType::TtAnalyzer, TridentType::TtTunnelDecapsulation] {
        assert!(!t.is_capture_type());
    }
    for t in [
        TridentType::TtProcess,
        TridentType::TtVm,
        TridentType::TtPublicCloud,
        TridentType::TtPhysicalMachine,
        TridentType::TtDedicatedPhysicalMachine,
        TridentType::TtHostPod,
        TridentType::TtVmPod,
        TridentType::TtHyperVCompute,
        TridentType::TtHyperVNetwork,
    ] {
        assert!(t.is_capture_type());
    }
    assert!(TridentType::TtHostPod.is_pod());
    assert!(TridentType::TtVmPod.is_pod());
    assert!(!TridentType::TtProcess.is_pod());
}
