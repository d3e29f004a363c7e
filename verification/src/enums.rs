//! The tagged values of the entity model and their stable numeric codes.

use vstd::prelude::*;

verus! {

/// The EtherTypes that the decoder recognises.
#[derive(Clone, Copy, Debug, PartialEq, Eq, Structural)]
pub enum EthernetType {
    Llc,
    Ipv4,
    Arp,
    Ipv6,
    Cdp,
    NortelDiscovery,
    TransparentEthernetBridging,
    Dot1Q,
    Ppp,
    PppoeDiscovery,
    PppoeSession,
    MplsUnicast,
    MplsMulticast,
    Eapol,
    QinQ,
    LinkLayerDiscovery,
    EthernetCtp,
}

impl EthernetType {
    /// The value of the type on the wire.
    pub open spec fn spec_code(self) -> u16 {
        match self {
            EthernetType::Llc => 0,
            EthernetType::Ipv4 => 0x0800,
            EthernetType::Arp => 0x0806,
            EthernetType::Ipv6 => 0x86dd,
            EthernetType::Cdp => 0x2000,
            EthernetType::NortelDiscovery => 0x01a2,
            EthernetType::TransparentEthernetBridging => 0x6558,
            EthernetType::Dot1Q => 0x8100,
            EthernetType::Ppp => 0x880b,
            EthernetType::PppoeDiscovery => 0x8863,
            EthernetType::PppoeSession => 0x8864,
            EthernetType::MplsUnicast => 0x8847,
            EthernetType::MplsMulticast => 0x8848,
            EthernetType::Eapol => 0x888e,
            EthernetType::QinQ => 0x88a8,
            EthernetType::LinkLayerDiscovery => 0x88cc,
            EthernetType::EthernetCtp => 0x9000,
        }
    }

    /// The type with wire value `v`, if the decoder recognises it.
    pub open spec fn spec_from_code(v: u16) -> Option<EthernetType> {
        if v == 0 {
            Some(EthernetType::Llc)
        } else if v == 0x0800 {
            Some(EthernetType::Ipv4)
        } else if v == 0x0806 {
            Some(EthernetType::Arp)
        } else if v == 0x86dd {
            Some(EthernetType::Ipv6)
        } else if v == 0x2000 {
            Some(EthernetType::Cdp)
        } else if v == 0x01a2 {
            Some(EthernetType::NortelDiscovery)
        } else if v == 0x6558 {
            Some(EthernetType::TransparentEthernetBridging)
        } else if v == 0x8100 {
            Some(EthernetType::Dot1Q)
        } else if v == 0x880b {
            Some(EthernetType::Ppp)
        } else if v == 0x8863 {
            Some(EthernetType::PppoeDiscovery)
        } else if v == 0x8864 {
            Some(EthernetType::PppoeSession)
        } else if v == 0x8847 {
            Some(EthernetType::MplsUnicast)
        } else if v == 0x8848 {
            Some(EthernetType::MplsMulticast)
        } else if v == 0x888e {
            Some(EthernetType::Eapol)
        } else if v == 0x88a8 {
            Some(EthernetType::QinQ)
        } else if v == 0x88cc {
            Some(EthernetType::LinkLayerDiscovery)
        } else if v == 0x9000 {
            Some(EthernetType::EthernetCtp)
        } else {
            None
        }
    }

    pub fn code(self) -> (r: u16)
        ensures
            r == self.spec_code(),
            EthernetType::spec_from_code(r) == Some(self),
    {
        match self {
            EthernetType::Llc => 0,
            EthernetType::Ipv4 => 0x0800,
            EthernetType::Arp => 0x0806,
            EthernetType::Ipv6 => 0x86dd,
            EthernetType::Cdp => 0x2000,
            EthernetType::NortelDiscovery => 0x01a2,
            EthernetType::TransparentEthernetBridging => 0x6558,
            EthernetType::Dot1Q => 0x8100,
            EthernetType::Ppp => 0x880b,
            EthernetType::PppoeDiscovery => 0x8863,
            EthernetType::PppoeSession => 0x8864,
            EthernetType::MplsUnicast => 0x8847,
            EthernetType::MplsMulticast => 0x8848,
            EthernetType::Eapol => 0x888e,
            EthernetType::QinQ => 0x88a8,
            EthernetType::LinkLayerDiscovery => 0x88cc,
            EthernetType::EthernetCtp => 0x9000,
        }
    }

    pub fn from_code(v: u16) -> (r: Option<EthernetType>)
        ensures
            r == EthernetType::spec_from_code(v),
            r matches Some(t) ==> t.spec_code() == v,
    {
        if v == 0 {
            Some(EthernetType::Llc)
        } else if v == 0x0800 {
            Some(EthernetType::Ipv4)
        } else if v == 0x0806 {
            Some(EthernetType::Arp)
        } else if v == 0x86dd {
            Some(EthernetType::Ipv6)
        } else if v == 0x2000 {
            Some(EthernetType::Cdp)
        } else if v == 0x01a2 {
            Some(EthernetType::NortelDiscovery)
        } else if v == 0x6558 {
            Some(EthernetType::TransparentEthernetBridging)
        } else if v == 0x8100 {
            Some(EthernetType::Dot1Q)
        } else if v == 0x880b {
            Some(EthernetType::Ppp)
        } else if v == 0x8863 {
            Some(EthernetType::PppoeDiscovery)
        } else if v == 0x8864 {
            Some(EthernetType::PppoeSession)
        } else if v == 0x8847 {
            Some(EthernetType::MplsUnicast)
        } else if v == 0x8848 {
            Some(EthernetType::MplsMulticast)
        } else if v == 0x888e {
            Some(EthernetType::Eapol)
        } else if v == 0x88a8 {
            Some(EthernetType::QinQ)
        } else if v == 0x88cc {
            Some(EthernetType::LinkLayerDiscovery)
        } else if v == 0x9000 {
            Some(EthernetType::EthernetCtp)
        } else {
            None
        }
    }
}

impl Default for EthernetType {
    fn default() -> (r: Self)
        ensures
            r == EthernetType::Llc,
    {
        EthernetType::Llc
    }
}

/// The IP protocol numbers that the decoder recognises.
///
/// `ControlMessage` is ICMP for IPv4 (1), `ControlMessageV6` is ICMP for IPv6 (58).
#[derive(Clone, Copy, Debug, PartialEq, Eq, PartialOrd, Ord, Hash, Structural)]
pub enum IpProtocol {
    Ipv6HopByHop,
    ControlMessage,
    Igmp,
    Ipv4,
    Tcp,
    Udp,
    Rudp,
    Ipv6,
    Ipv6Routing,
    Ipv6Fragment,
    Gre,
    Esp,
    Ah,
    ControlMessageV6,
    NoNextHeader,
    Ipv6Destination,
    Ospf,
    Ipip,
    EtherIp,
    Vrrp,
    Sctp,
    UdpLite,
    MplsInIp,
}

impl IpProtocol {
    /// The protocol number on the wire.
    pub open spec fn spec_code(self) -> u8 {
        match self {
            IpProtocol::Ipv6HopByHop => 0,
            IpProtocol::ControlMessage => 1,
            IpProtocol::Igmp => 2,
            IpProtocol::Ipv4 => 4,
            IpProtocol::Tcp => 6,
            IpProtocol::Udp => 17,
            IpProtocol::Rudp => 27,
            IpProtocol::Ipv6 => 41,
            IpProtocol::Ipv6Routing => 43,
            IpProtocol::Ipv6Fragment => 44,
            IpProtocol::Gre => 47,
            IpProtocol::Esp => 50,
            IpProtocol::Ah => 51,
            IpProtocol::ControlMessageV6 => 58,
            IpProtocol::NoNextHeader => 59,
            IpProtocol::Ipv6Destination => 60,
            IpProtocol::Ospf => 89,
            IpProtocol::Ipip => 94,
            IpProtocol::EtherIp => 97,
            IpProtocol::Vrrp => 112,
            IpProtocol::Sctp => 132,
            IpProtocol::UdpLite => 136,
            IpProtocol::MplsInIp => 137,
        }
    }

    /// The protocol with number `v`, if the decoder recognises it.
    pub open spec fn spec_from_code(v: u8) -> Option<IpProtocol> {
        if v == 0 {
            Some(IpProtocol::Ipv6HopByHop)
        } else if v == 1 {
            Some(IpProtocol::ControlMessage)
        } else if v == 2 {
            Some(IpProtocol::Igmp)
        } else if v == 4 {
            Some(IpProtocol::Ipv4)
        } else if v == 6 {
            Some(IpProtocol::Tcp)
        } else if v == 17 {
            Some(IpProtocol::Udp)
        } else if v == 27 {
            Some(IpProtocol::Rudp)
        } else if v == 41 {
            Some(IpProtocol::Ipv6)
        } else if v == 43 {
            Some(IpProtocol::Ipv6Routing)
        } else if v == 44 {
            Some(IpProtocol::Ipv6Fragment)
        } else if v == 47 {
            Some(IpProtocol::Gre)
        } else if v == 50 {
            Some(IpProtocol::Esp)
        } else if v == 51 {
            Some(IpProtocol::Ah)
        } else if v == 58 {
            Some(IpProtocol::ControlMessageV6)
        } else if v == 59 {
            Some(IpProtocol::NoNextHeader)
        } else if v == 60 {
            Some(IpProtocol::Ipv6Destination)
        } else if v == 89 {
            Some(IpProtocol::Ospf)
        } else if v == 94 {
            Some(IpProtocol::Ipip)
        } else if v == 97 {
            Some(IpProtocol::EtherIp)
        } else if v == 112 {
            Some(IpProtocol::Vrrp)
        } else if v == 132 {
            Some(IpProtocol::Sctp)
        } else if v == 136 {
            Some(IpProtocol::UdpLite)
        } else if v == 137 {
            Some(IpProtocol::MplsInIp)
        } else {
            None
        }
    }

    pub fn code(self) -> (r: u8)
        ensures
            r == self.spec_code(),
            IpProtocol::spec_from_code(r) == Some(self),
    {
        match self {
            IpProtocol::Ipv6HopByHop => 0,
            IpProtocol::ControlMessage => 1,
            IpProtocol::Igmp => 2,
            IpProtocol::Ipv4 => 4,
            IpProtocol::Tcp => 6,
            IpProtocol::Udp => 17,
            IpProtocol::Rudp => 27,
            IpProtocol::Ipv6 => 41,
            IpProtocol::Ipv6Routing => 43,
            IpProtocol::Ipv6Fragment => 44,
            IpProtocol::Gre => 47,
            IpProtocol::Esp => 50,
            IpProtocol::Ah => 51,
            IpProtocol::ControlMessageV6 => 58,
            IpProtocol::NoNextHeader => 59,
            IpProtocol::Ipv6Destination => 60,
            IpProtocol::Ospf => 89,
            IpProtocol::Ipip => 94,
            IpProtocol::EtherIp => 97,
            IpProtocol::Vrrp => 112,
            IpProtocol::Sctp => 132,
            IpProtocol::UdpLite => 136,
            IpProtocol::MplsInIp => 137,
        }
    }

    pub fn from_code(v: u8) -> (r: Option<IpProtocol>)
        ensures
            r == IpProtocol::spec_from_code(v),
            r matches Some(p) ==> p.spec_code() == v,
    {
        if v == 0 {
            Some(IpProtocol::Ipv6HopByHop)
        } else if v == 1 {
            Some(IpProtocol::ControlMessage)
        } else if v == 2 {
            Some(IpProtocol::Igmp)
        } else if v == 4 {
            Some(IpProtocol::Ipv4)
        } else if v == 6 {
            Some(IpProtocol::Tcp)
        } else if v == 17 {
            Some(IpProtocol::Udp)
        } else if v == 27 {
            Some(IpProtocol::Rudp)
        } else if v == 41 {
            Some(IpProtocol::Ipv6)
        } else if v == 43 {
            Some(IpProtocol::Ipv6Routing)
        } else if v == 44 {
            Some(IpProtocol::Ipv6Fragment)
        } else if v == 47 {
            Some(IpProtocol::Gre)
        } else if v == 50 {
            Some(IpProtocol::Esp)
        } else if v == 51 {
            Some(IpProtocol::Ah)
        } else if v == 58 {
            Some(IpProtocol::ControlMessageV6)
        } else if v == 59 {
            Some(IpProtocol::NoNextHeader)
        } else if v == 60 {
            Some(IpProtocol::Ipv6Destination)
        } else if v == 89 {
            Some(IpProtocol::Ospf)
        } else if v == 94 {
            Some(IpProtocol::Ipip)
        } else if v == 97 {
            Some(IpProtocol::EtherIp)
        } else if v == 112 {
            Some(IpProtocol::Vrrp)
        } else if v == 132 {
            Some(IpProtocol::Sctp)
        } else if v == 136 {
            Some(IpProtocol::UdpLite)
        } else if v == 137 {
            Some(IpProtocol::MplsInIp)
        } else {
            None
        }
    }
}

impl Default for IpProtocol {
    fn default() -> (r: Self)
        ensures
            r == IpProtocol::Ipv6HopByHop,
    {
        IpProtocol::Ipv6HopByHop
    }
}

/// How far the decoder got into a frame: the innermost header it accepted.
///
/// `Ipv4ControlMessage` is an IPv4 packet that carries ICMP.
#[derive(Clone, Copy, Debug, PartialEq, Eq, Structural)]
pub enum HeaderType {
    Invalid,
    Eth,
    Arp,
    Ipv4,
    Ipv4ControlMessage,
    Ipv6,
    Ipv4Tcp,
    Ipv4Udp,
    Ipv6Tcp,
    Ipv6Udp,
}

impl HeaderType {
    /// The numeric code of the header type. Layer 2 types are below `0x20`,
    /// layer 3 types below `0x80`, layer 4 types from `0x80` on.
    pub open spec fn spec_code(self) -> u8 {
        match self {
            HeaderType::Invalid => 0,
            HeaderType::Eth => 0x1,
            HeaderType::Arp => 0x2,
            HeaderType::Ipv4 => 0x20,
            HeaderType::Ipv4ControlMessage => 0x21,
            HeaderType::Ipv6 => 0x40,
            HeaderType::Ipv4Tcp => 0x80,
            HeaderType::Ipv4Udp => 0x81,
            HeaderType::Ipv6Tcp => 0xb0,
            HeaderType::Ipv6Udp => 0xb1,
        }
    }

    /// The least size of a frame whose innermost header is of this type, without
    /// 802.1Q tags and header options. An IPv6 header counts as 20 bytes here;
    /// the other 20 are accounted as options.
    pub open spec fn spec_min_packet_size(self) -> usize {
        match self {
            HeaderType::Invalid => 0,
            HeaderType::Eth => 14,
            HeaderType::Arp => 42,
            HeaderType::Ipv4 => 34,
            HeaderType::Ipv4ControlMessage => 42,
            HeaderType::Ipv6 => 34,
            HeaderType::Ipv4Tcp => 54,
            HeaderType::Ipv4Udp => 42,
            HeaderType::Ipv6Tcp => 54,
            HeaderType::Ipv6Udp => 42,
        }
    }

    /// The least size of the header of this type alone.
    pub open spec fn spec_min_header_size(self) -> usize {
        match self {
            HeaderType::Invalid => 0,
            HeaderType::Eth => 14,
            HeaderType::Arp => 28,
            HeaderType::Ipv4 => 20,
            HeaderType::Ipv4ControlMessage => 8,
            HeaderType::Ipv6 => 40,
            HeaderType::Ipv4Tcp => 20,
            HeaderType::Ipv4Udp => 8,
            HeaderType::Ipv6Tcp => 20,
            HeaderType::Ipv6Udp => 8,
        }
    }

    pub fn code(self) -> (r: u8)
        ensures
            r == self.spec_code(),
    {
        match self {
            HeaderType::Invalid => 0,
            HeaderType::Eth => 0x1,
            HeaderType::Arp => 0x2,
            HeaderType::Ipv4 => 0x20,
            HeaderType::Ipv4ControlMessage => 0x21,
            HeaderType::Ipv6 => 0x40,
            HeaderType::Ipv4Tcp => 0x80,
            HeaderType::Ipv4Udp => 0x81,
            HeaderType::Ipv6Tcp => 0xb0,
            HeaderType::Ipv6Udp => 0xb1,
        }
    }

    pub fn min_packet_size(self) -> (r: usize)
        requires
            self != HeaderType::Invalid,
        ensures
            r == self.spec_min_packet_size(),
    {
        match self {
            HeaderType::Invalid => 0,
            HeaderType::Eth => 14,
            HeaderType::Arp => 42,
            HeaderType::Ipv4 => 34,
            HeaderType::Ipv4ControlMessage => 42,
            HeaderType::Ipv6 => 34,
            HeaderType::Ipv4Tcp => 54,
            HeaderType::Ipv4Udp => 42,
            HeaderType::Ipv6Tcp => 54,
            HeaderType::Ipv6Udp => 42,
        }
    }

    pub fn min_header_size(self) -> (r: usize)
        requires
            self != HeaderType::Invalid,
        ensures
            r == self.spec_min_header_size(),
    {
        match self {
            HeaderType::Invalid => 0,
            HeaderType::Eth => 14,
            HeaderType::Arp => 28,
            HeaderType::Ipv4 => 20,
            HeaderType::Ipv4ControlMessage => 8,
            HeaderType::Ipv6 => 40,
            HeaderType::Ipv4Tcp => 20,
            HeaderType::Ipv4Udp => 8,
            HeaderType::Ipv6Tcp => 20,
            HeaderType::Ipv6Udp => 8,
        }
    }
}

impl Default for HeaderType {
    fn default() -> (r: Self)
        ensures
            r == HeaderType::Invalid,
    {
        HeaderType::Invalid
    }
}

/// Where a packet was captured.
#[derive(Clone, Copy, Debug, PartialEq, Eq, PartialOrd, Ord, Hash, Structural)]
pub enum TapType {
    Any,
    Isp(u8),
    Tor,
    Max,
}

impl TapType {
    pub open spec fn spec_code(self) -> u16 {
        match self {
            TapType::Any => 0,
            TapType::Isp(n) => n as u16,
            TapType::Tor => 3,
            TapType::Max => 256,
        }
    }

    pub fn code(self) -> (r: u16)
        ensures
            r == self.spec_code(),
            r <= 256,
    {
        match self {
            TapType::Any => 0,
            TapType::Isp(n) => n as u16,
            TapType::Tor => 3,
            TapType::Max => 256,
        }
    }
}

impl Default for TapType {
    fn default() -> (r: Self)
        ensures
            r == TapType::Any,
    {
        TapType::Any
    }
}

/// A set of TCP flags, one bit each, as in the flags byte of the TCP header.
#[derive(Clone, Copy, Debug, PartialEq, Eq, Structural)]
pub struct TcpFlags {
    pub bits: u8,
}

pub const TCP_FIN: u8 = 0x01;
pub const TCP_SYN: u8 = 0x02;
pub const TCP_RST: u8 = 0x04;
pub const TCP_PSH: u8 = 0x08;
pub const TCP_ACK: u8 = 0x10;
pub const TCP_URG: u8 = 0x20;
/// The six flags that the flow state machine looks at.
pub const TCP_MASK: u8 = 0x3f;
pub const TCP_SYN_ACK: u8 = 0x12;
pub const TCP_PSH_ACK: u8 = 0x18;
pub const TCP_FIN_ACK: u8 = 0x11;

impl TcpFlags {
    pub fn empty() -> (r: TcpFlags)
        ensures
            r.bits == 0,
    {
        TcpFlags { bits: 0 }
    }

    /// The flags of `bits`; bits that are no flag are dropped.
    pub fn from_bits_truncate(bits: u8) -> (r: TcpFlags)
        ensures
            r.bits == bits & TCP_MASK,
    {
        TcpFlags { bits: bits & TCP_MASK }
    }

    pub fn bits(self) -> (r: u8)
        ensures
            r == self.bits,
    {
        self.bits
    }

    pub open spec fn spec_contains(self, flags: u8) -> bool {
        self.bits & flags == flags
    }

    /// Whether every flag of `flags` is set.
    pub fn contains(self, flags: u8) -> (r: bool)
        ensures
            r == self.spec_contains(flags),
    {
        self.bits & flags == flags
    }

    pub open spec fn spec_union(self, other: TcpFlags) -> TcpFlags {
        TcpFlags { bits: self.bits | other.bits }
    }

    pub fn union(self, other: TcpFlags) -> (r: TcpFlags)
        ensures
            r == self.spec_union(other),
    {
        TcpFlags { bits: self.bits | other.bits }
    }
}

impl Default for TcpFlags {
    fn default() -> (r: Self)
        ensures
            r.bits == 0,
    {
        TcpFlags { bits: 0 }
    }
}

/// The direction of a packet within its flow.
#[derive(Clone, Copy, Debug, PartialEq, Eq, Structural)]
pub enum PacketDirection {
    ClientToServer,
    ServerToClient,
}

impl Default for PacketDirection {
    fn default() -> (r: Self)
        ensures
            r == PacketDirection::ClientToServer,
    {
        PacketDirection::ClientToServer
    }
}

/// The encapsulation of tunnelled traffic.
#[derive(Clone, Copy, Debug, PartialEq, Eq, Structural)]
pub enum TunnelType {
    NoTunnel,
    Vxlan,
    Ipip,
    TencentGre,
    ErspanOrTeb,
}

impl TunnelType {
    pub open spec fn spec_code(self) -> u8 {
        match self {
            TunnelType::NoTunnel => 0,
            TunnelType::Vxlan => 1,
            TunnelType::Ipip => 2,
            TunnelType::TencentGre => 3,
            TunnelType::ErspanOrTeb => 4,
        }
    }

    pub fn code(self) -> (r: u8)
        ensures
            r == self.spec_code(),
    {
        match self {
            TunnelType::NoTunnel => 0,
            TunnelType::Vxlan => 1,
            TunnelType::Ipip => 2,
            TunnelType::TencentGre => 3,
            TunnelType::ErspanOrTeb => 4,
        }
    }
}

impl Default for TunnelType {
    fn default() -> (r: Self)
        ensures
            r == TunnelType::NoTunnel,
    {
        TunnelType::NoTunnel
    }
}

/// The kind of deployment of the agent.
#[derive(Clone, Copy, Debug, PartialEq, Eq, Structural)]
pub enum TridentType {
    TtUnknown,
    TtProcess,
    TtVm,
    TtPublicCloud,
    TtAnalyzer,
    TtPhysicalMachine,
    TtDedicatedPhysicalMachine,
    TtHostPod,
    TtVmPod,
    TtTunnelDecapsulation,
    TtHyperVCompute,
    TtHyperVNetwork,
}

impl TridentType {
    /// Whether the agent captures traffic in this deployment. The other kinds
    /// are configuration errors for everything that looks at flows.
    pub open spec fn captures(self) -> bool {
        self != TridentType::TtUnknown && self != TridentType::TtAnalyzer && self
            != TridentType::TtTunnelDecapsulation
    }

    pub fn is_capture_type(self) -> (r: bool)
        ensures
            r == self.captures(),
    {
        match self {
            TridentType::TtUnknown | TridentType::TtAnalyzer | TridentType::TtTunnelDecapsulation => false,
            _ => true,
        }
    }

    /// Whether the agent runs in a container pod.
    pub open spec fn spec_is_pod(self) -> bool {
        self == TridentType::TtHostPod || self == TridentType::TtVmPod
    }

    pub fn is_pod(self) -> (r: bool)
        ensures
            r == self.spec_is_pod(),
    {
        match self {
            TridentType::TtHostPod | TridentType::TtVmPod => true,
            _ => false,
        }
    }
}

impl Default for TridentType {
    fn default() -> (r: Self)
        ensures
            r == TridentType::TtUnknown,
    {
        TridentType::TtUnknown
    }
}

/// The side of a flow on which statistics are taken, as seen from one endpoint.
#[derive(Clone, Copy, Debug, PartialEq, Eq, Structural)]
pub enum Direction {
    /// No statistics are taken on this side.
    NoSide,
    ClientToServer,
    ServerToClient,
    LocalToLocal,
    ClientNodeToServer,
    ServerNodeToClient,
    ClientHypervisorToServer,
    ServerHypervisorToClient,
    ClientGatewayHypervisorToServer,
    ServerGatewayHypervisorToClient,
    ClientGatewayToServer,
    ServerGatewayToClient,
    ClientProcessToServer,
    ServerProcessToClient,
}

/// The observation point of a flow.
#[derive(Clone, Copy, Debug, PartialEq, Eq, Structural)]
pub enum TapSide {
    Rest,
    Client,
    Server,
    Local,
    ClientNode,
    ServerNode,
    ClientHypervisor,
    ServerHypervisor,
    ClientGatewayHypervisor,
    ServerGatewayHypervisor,
    ClientGateway,
    ServerGateway,
    ClientProcess,
    ServerProcess,
}

impl TapSide {
    /// The observation point that a direction stands for.
    pub open spec fn of_direction(d: Direction) -> TapSide {
        match d {
            Direction::NoSide => TapSide::Rest,
            Direction::ClientToServer => TapSide::Client,
            Direction::ServerToClient => TapSide::Server,
            Direction::LocalToLocal => TapSide::Local,
            Direction::ClientNodeToServer => TapSide::ClientNode,
            Direction::ServerNodeToClient => TapSide::ServerNode,
            Direction::ClientHypervisorToServer => TapSide::ClientHypervisor,
            Direction::ServerHypervisorToClient => TapSide::ServerHypervisor,
            Direction::ClientGatewayHypervisorToServer => TapSide::ClientGatewayHypervisor,
            Direction::ServerGatewayHypervisorToClient => TapSide::ServerGatewayHypervisor,
            Direction::ClientGatewayToServer => TapSide::ClientGateway,
            Direction::ServerGatewayToClient => TapSide::ServerGateway,
            Direction::ClientProcessToServer => TapSide::ClientProcess,
            Direction::ServerProcessToClient => TapSide::ServerProcess,
        }
    }

    pub fn from_direction(d: Direction) -> (r: TapSide)
        ensures
            r == TapSide::of_direction(d),
    {
        match d {
            Direction::NoSide => TapSide::Rest,
            Direction::ClientToServer => TapSide::Client,
            Direction::ServerToClient => TapSide::Server,
            Direction::LocalToLocal => TapSide::Local,
            Direction::ClientNodeToServer => TapSide::ClientNode,
            Direction::ServerNodeToClient => TapSide::ServerNode,
            Direction::ClientHypervisorToServer => TapSide::ClientHypervisor,
            Direction::ServerHypervisorToClient => TapSide::ServerHypervisor,
            Direction::ClientGatewayHypervisorToServer => TapSide::ClientGatewayHypervisor,
            Direction::ServerGatewayHypervisorToClient => TapSide::ServerGatewayHypervisor,
            Direction::ClientGatewayToServer => TapSide::ClientGateway,
            Direction::ServerGatewayToClient => TapSide::ServerGateway,
            Direction::ClientProcessToServer => TapSide::ClientProcess,
            Direction::ServerProcessToClient => TapSide::ServerProcess,
        }
    }
}

impl Default for TapSide {
    fn default() -> (r: Self)
        ensures
            r == TapSide::Rest,
    {
        TapSide::Rest
    }
}

/// The state of the TCP state machine of a flow.
#[derive(Clone, Copy, Debug, PartialEq, Eq, Structural)]
pub enum FlowState {
    Raw,
    Opening1,
    Opening2,
    Established,
    ClosingTx1,
    ClosingTx2,
    ClosingRx1,
    ClosingRx2,
    Closed,
    Reset,
    Exception,
    Syn1,
    SynAck1,
    ServerReset,
    ClientL4PortReuse,
    ServerCandidateQueueLack,
    EstablishReset,
    Max,
}

} // verus!
