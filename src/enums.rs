use vstd::prelude::*;

verus! {

/// A number that stands for no value of the table it was looked up in.
#[derive(Debug, Clone, Copy, PartialEq, Eq, Structural)]
pub struct UnknownValue {
    pub number: u32,
}

/// The value found, or the unknown number.
pub open spec fn unknown_or<T>(found: Option<T>, number: u32) -> Result<T, UnknownValue> {
    match found {
        Some(e) => Ok(e),
        None => Err(UnknownValue { number }),
    }
}

/// Ethernet type values.
#[derive(Debug, Clone, Copy)]
pub enum EthernetType {
    Llc,
    Ipv4,
    Arp,
    Ipv6,
    CiscoDiscovery,
    NortelDiscovery,
    TransparentEthernetBridging,
    Dot1Q,
    Ppp,
    PppoeDiscovery,
    PppoeSession,
    MplsUnicast,
    MplsMulticast,
    Eapol,
    QinQ,
    LinkLayerDiscovery,
    EthernetCtp,
}

/// The number that stands for each EthernetType.
pub open spec fn ethernet_type_value(e: EthernetType) -> u16 {
    match e {
        EthernetType::Llc => 0,
        EthernetType::Ipv4 => 0x0800,
        EthernetType::Arp => 0x0806,
        EthernetType::Ipv6 => 0x86DD,
        EthernetType::CiscoDiscovery => 0x2000,
        EthernetType::NortelDiscovery => 0x01a2,
        EthernetType::TransparentEthernetBridging => 0x6558,
        EthernetType::Dot1Q => 0x8100,
        EthernetType::Ppp => 0x880b,
        EthernetType::PppoeDiscovery => 0x8863,
        EthernetType::PppoeSession => 0x8864,
        EthernetType::MplsUnicast => 0x8847,
        EthernetType::MplsMulticast => 0x8848,
        EthernetType::Eapol => 0x888e,
        EthernetType::QinQ => 0x88a8,
        EthernetType::LinkLayerDiscovery => 0x88cc,
        EthernetType::EthernetCtp => 0x9000,
    }
}

/// The EthernetType that a number stands for, if any.
pub open spec fn ethernet_type_of(v: u16) -> Option<EthernetType> {
    if v == 0 {
        Some(EthernetType::Llc)
    } else if v == 0x0800 {
        Some(EthernetType::Ipv4)
    } else if v == 0x0806 {
        Some(EthernetType::Arp)
    } else if v == 0x86DD {
        Some(EthernetType::Ipv6)
    } else if v == 0x2000 {
        Some(EthernetType::CiscoDiscovery)
    } else if v == 0x01a2 {
        Some(EthernetType::NortelDiscovery)
    } else if v == 0x6558 {
        Some(EthernetType::TransparentEthernetBridging)
    } else if v == 0x8100 {
        Some(EthernetType::Dot1Q)
    } else if v == 0x880b {
        Some(EthernetType::Ppp)
    } else if v == 0x8863 {
        Some(EthernetType::PppoeDiscovery)
    } else if v == 0x8864 {
        Some(EthernetType::PppoeSession)
    } else if v == 0x8847 {
        Some(EthernetType::MplsUnicast)
    } else if v == 0x8848 {
        Some(EthernetType::MplsMulticast)
    } else if v == 0x888e {
        Some(EthernetType::Eapol)
    } else if v == 0x88a8 {
        Some(EthernetType::QinQ)
    } else if v == 0x88cc {
        Some(EthernetType::LinkLayerDiscovery)
    } else if v == 0x9000 {
        Some(EthernetType::EthernetCtp)
    } else {
        None
    }
}

/// Each EthernetType is read back from its number, and a number that is read gives it back.
pub proof fn lemma_ethernet_type_round_trip(e: EthernetType, v: u16)
    ensures
        ethernet_type_of(ethernet_type_value(e)) == Some(e),
        ethernet_type_of(v) matches Some(x) ==> ethernet_type_value(x) == v,
{
}

impl From<EthernetType> for u16 {
    fn from(e: EthernetType) -> (r: u16)
        ensures
            r == ethernet_type_value(e),
    {
        match e {
            EthernetType::Llc => 0,
            EthernetType::Ipv4 => 0x0800,
            EthernetType::Arp => 0x0806,
            EthernetType::Ipv6 => 0x86DD,
            EthernetType::CiscoDiscovery => 0x2000,
            EthernetType::NortelDiscovery => 0x01a2,
            EthernetType::TransparentEthernetBridging => 0x6558,
            EthernetType::Dot1Q => 0x8100,
            EthernetType::Ppp => 0x880b,
            EthernetType::PppoeDiscovery => 0x8863,
            EthernetType::PppoeSession => 0x8864,
            EthernetType::MplsUnicast => 0x8847,
            EthernetType::MplsMulticast => 0x8848,
            EthernetType::Eapol => 0x888e,
            EthernetType::QinQ => 0x88a8,
            EthernetType::LinkLayerDiscovery => 0x88cc,
            EthernetType::EthernetCtp => 0x9000,
        }
    }
}

impl vstd::std_specs::convert::FromSpecImpl<EthernetType> for u16 {
    open spec fn obeys_from_spec() -> bool {
        true
    }

    open spec fn from_spec(e: EthernetType) -> u16 {
        ethernet_type_value(e)
    }
}

impl TryFrom<u16> for EthernetType {
    type Error = UnknownValue;

    fn try_from(v: u16) -> (r: Result<EthernetType, UnknownValue>)
        ensures
            r == unknown_or(ethernet_type_of(v), v as u32),
    {
        match v {
            0 => Ok(EthernetType::Llc),
            0x0800 => Ok(EthernetType::Ipv4),
            0x0806 => Ok(EthernetType::Arp),
            0x86DD => Ok(EthernetType::Ipv6),
            0x2000 => Ok(EthernetType::CiscoDiscovery),
            0x01a2 => Ok(EthernetType::NortelDiscovery),
            0x6558 => Ok(EthernetType::TransparentEthernetBridging),
            0x8100 => Ok(EthernetType::Dot1Q),
            0x880b => Ok(EthernetType::Ppp),
            0x8863 => Ok(EthernetType::PppoeDiscovery),
            0x8864 => Ok(EthernetType::PppoeSession),
            0x8847 => Ok(EthernetType::MplsUnicast),
            0x8848 => Ok(EthernetType::MplsMulticast),
            0x888e => Ok(EthernetType::Eapol),
            0x88a8 => Ok(EthernetType::QinQ),
            0x88cc => Ok(EthernetType::LinkLayerDiscovery),
            0x9000 => Ok(EthernetType::EthernetCtp),
            _ => Err(UnknownValue { number: v as u32 }),
        }
    }
}

impl vstd::std_specs::convert::TryFromSpecImpl<u16> for EthernetType {
    open spec fn obeys_try_from_spec() -> bool {
        true
    }

    open spec fn try_from_spec(v: u16) -> Result<EthernetType, UnknownValue> {
        unknown_or(ethernet_type_of(v), v as u32)
    }
}

impl PartialEq for EthernetType {
    fn eq(&self, other: &EthernetType) -> (r: bool)
        ensures
            r == (ethernet_type_value(*self) == ethernet_type_value(*other)),
    {
        u16::from(*self) == u16::from(*other)
    }
}

impl vstd::std_specs::cmp::PartialEqSpecImpl for EthernetType {
    open spec fn obeys_eq_spec() -> bool {
        true
    }

    open spec fn eq_spec(&self, other: &EthernetType) -> bool {
        ethernet_type_value(*self) == ethernet_type_value(*other)
    }
}

impl Eq for EthernetType {

}

impl PartialEq<u16> for EthernetType {
    fn eq(&self, other: &u16) -> (r: bool)
        ensures
            r == (ethernet_type_value(*self) == *other),
    {
        u16::from(*self) == *other
    }
}

impl vstd::std_specs::cmp::PartialEqSpecImpl<u16> for EthernetType {
    open spec fn obeys_eq_spec() -> bool {
        true
    }

    open spec fn eq_spec(&self, other: &u16) -> bool {
        ethernet_type_value(*self) == *other
    }
}

impl PartialEq<EthernetType> for u16 {
    fn eq(&self, other: &EthernetType) -> (r: bool)
        ensures
            r == (*self == ethernet_type_value(*other)),
    {
        u16::from(*other) == *self
    }
}

impl vstd::std_specs::cmp::PartialEqSpecImpl<EthernetType> for u16 {
    open spec fn obeys_eq_spec() -> bool {
        true
    }

    open spec fn eq_spec(&self, other: &EthernetType) -> bool {
        *self == ethernet_type_value(*other)
    }
}

/// IP protocol numbers.
#[derive(Debug, Clone, Copy)]
pub enum IpProtocol {
    Ipv6HopByHop,
    Icmpv4,
    Igmp,
    Ipv4,
    Tcp,
    Udp,
    Rudp,
    Ipv6,
    Ipv6Routing,
    Ipv6Fragment,
    Gre,
    Esp,
    Ah,
    Icmpv6,
    NoNextHeader,
    Ipv6Destination,
    Ospf,
    Ipip,
    EtherIp,
    Vrrp,
    Sstp,
    UdpLite,
    MplsInIp,
}

/// The number that stands for each IpProtocol.
pub open spec fn ip_protocol_value(e: IpProtocol) -> u8 {
    match e {
        IpProtocol::Ipv6HopByHop => 0,
        IpProtocol::Icmpv4 => 1,
        IpProtocol::Igmp => 2,
        IpProtocol::Ipv4 => 4,
        IpProtocol::Tcp => 6,
        IpProtocol::Udp => 17,
        IpProtocol::Rudp => 27,
        IpProtocol::Ipv6 => 41,
        IpProtocol::Ipv6Routing => 43,
        IpProtocol::Ipv6Fragment => 44,
        IpProtocol::Gre => 47,
        IpProtocol::Esp => 50,
        IpProtocol::Ah => 51,
        IpProtocol::Icmpv6 => 58,
        IpProtocol::NoNextHeader => 59,
        IpProtocol::Ipv6Destination => 60,
        IpProtocol::Ospf => 89,
        IpProtocol::Ipip => 94,
        IpProtocol::EtherIp => 97,
        IpProtocol::Vrrp => 112,
        IpProtocol::Sstp => 132,
        IpProtocol::UdpLite => 136,
        IpProtocol::MplsInIp => 137,
    }
}

/// The IpProtocol that a number stands for, if any.
pub open spec fn ip_protocol_of(v: u8) -> Option<IpProtocol> {
    if v == 0 {
        Some(IpProtocol::Ipv6HopByHop)
    } else if v == 1 {
        Some(IpProtocol::Icmpv4)
    } else if v == 2 {
        Some(IpProtocol::Igmp)
    } else if v == 4 {
        Some(IpProtocol::Ipv4)
    } else if v == 6 {
        Some(IpProtocol::Tcp)
    } else if v == 17 {
        Some(IpProtocol::Udp)
    } else if v == 27 {
        Some(IpProtocol::Rudp)
    } else if v == 41 {
        Some(IpProtocol::Ipv6)
    } else if v == 43 {
        Some(IpProtocol::Ipv6Routing)
    } else if v == 44 {
        Some(IpProtocol::Ipv6Fragment)
    } else if v == 47 {
        Some(IpProtocol::Gre)
    } else if v == 50 {
        Some(IpProtocol::Esp)
    } else if v == 51 {
        Some(IpProtocol::Ah)
    } else if v == 58 {
        Some(IpProtocol::Icmpv6)
    } else if v == 59 {
        Some(IpProtocol::NoNextHeader)
    } else if v == 60 {
        Some(IpProtocol::Ipv6Destination)
    } else if v == 89 {
        Some(IpProtocol::Ospf)
    } else if v == 94 {
        Some(IpProtocol::Ipip)
    } else if v == 97 {
        Some(IpProtocol::EtherIp)
    } else if v == 112 {
        Some(IpProtocol::Vrrp)
    } else if v == 132 {
        Some(IpProtocol::Sstp)
    } else if v == 136 {
        Some(IpProtocol::UdpLite)
    } else if v == 137 {
        Some(IpProtocol::MplsInIp)
    } else {
        None
    }
}

/// Each IpProtocol is read back from its number, and a number that is read gives it back.
pub proof fn lemma_ip_protocol_round_trip(e: IpProtocol, v: u8)
    ensures
        ip_protocol_of(ip_protocol_value(e)) == Some(e),
        ip_protocol_of(v) matches Some(x) ==> ip_protocol_value(x) == v,
{
}

impl From<IpProtocol> for u8 {
    fn from(e: IpProtocol) -> (r: u8)
        ensures
            r == ip_protocol_value(e),
    {
        match e {
            IpProtocol::Ipv6HopByHop => 0,
            IpProtocol::Icmpv4 => 1,
            IpProtocol::Igmp => 2,
            IpProtocol::Ipv4 => 4,
            IpProtocol::Tcp => 6,
            IpProtocol::Udp => 17,
            IpProtocol::Rudp => 27,
            IpProtocol::Ipv6 => 41,
            IpProtocol::Ipv6Routing => 43,
            IpProtocol::Ipv6Fragment => 44,
            IpProtocol::Gre => 47,
            IpProtocol::Esp => 50,
            IpProtocol::Ah => 51,
            IpProtocol::Icmpv6 => 58,
            IpProtocol::NoNextHeader => 59,
            IpProtocol::Ipv6Destination => 60,
            IpProtocol::Ospf => 89,
            IpProtocol::Ipip => 94,
            IpProtocol::EtherIp => 97,
            IpProtocol::Vrrp => 112,
            IpProtocol::Sstp => 132,
            IpProtocol::UdpLite => 136,
            IpProtocol::MplsInIp => 137,
        }
    }
}

impl vstd::std_specs::convert::FromSpecImpl<IpProtocol> for u8 {
    open spec fn obeys_from_spec() -> bool {
        true
    }

    open spec fn from_spec(e: IpProtocol) -> u8 {
        ip_protocol_value(e)
    }
}

impl TryFrom<u8> for IpProtocol {
    type Error = UnknownValue;

    fn try_from(v: u8) -> (r: Result<IpProtocol, UnknownValue>)
        ensures
            r == unknown_or(ip_protocol_of(v), v as u32),
    {
        match v {
            0 => Ok(IpProtocol::Ipv6HopByHop),
            1 => Ok(IpProtocol::Icmpv4),
            2 => Ok(IpProtocol::Igmp),
            4 => Ok(IpProtocol::Ipv4),
            6 => Ok(IpProtocol::Tcp),
            17 => Ok(IpProtocol::Udp),
            27 => Ok(IpProtocol::Rudp),
            41 => Ok(IpProtocol::Ipv6),
            43 => Ok(IpProtocol::Ipv6Routing),
            44 => Ok(IpProtocol::Ipv6Fragment),
            47 => Ok(IpProtocol::Gre),
            50 => Ok(IpProtocol::Esp),
            51 => Ok(IpProtocol::Ah),
            58 => Ok(IpProtocol::Icmpv6),
            59 => Ok(IpProtocol::NoNextHeader),
            60 => Ok(IpProtocol::Ipv6Destination),
            89 => Ok(IpProtocol::Ospf),
            94 => Ok(IpProtocol::Ipip),
            97 => Ok(IpProtocol::EtherIp),
            112 => Ok(IpProtocol::Vrrp),
            132 => Ok(IpProtocol::Sstp),
            136 => Ok(IpProtocol::UdpLite),
            137 => Ok(IpProtocol::MplsInIp),
            _ => Err(UnknownValue { number: v as u32 }),
        }
    }
}

impl vstd::std_specs::convert::TryFromSpecImpl<u8> for IpProtocol {
    open spec fn obeys_try_from_spec() -> bool {
        true
    }

    open spec fn try_from_spec(v: u8) -> Result<IpProtocol, UnknownValue> {
        unknown_or(ip_protocol_of(v), v as u32)
    }
}

impl PartialEq for IpProtocol {
    fn eq(&self, other: &IpProtocol) -> (r: bool)
        ensures
            r == (ip_protocol_value(*self) == ip_protocol_value(*other)),
    {
        u8::from(*self) == u8::from(*other)
    }
}

impl vstd::std_specs::cmp::PartialEqSpecImpl for IpProtocol {
    open spec fn obeys_eq_spec() -> bool {
        true
    }

    open spec fn eq_spec(&self, other: &IpProtocol) -> bool {
        ip_protocol_value(*self) == ip_protocol_value(*other)
    }
}

impl Eq for IpProtocol {

}

impl PartialEq<u8> for IpProtocol {
    fn eq(&self, other: &u8) -> (r: bool)
        ensures
            r == (ip_protocol_value(*self) == *other),
    {
        u8::from(*self) == *other
    }
}

impl vstd::std_specs::cmp::PartialEqSpecImpl<u8> for IpProtocol {
    open spec fn obeys_eq_spec() -> bool {
        true
    }

    open spec fn eq_spec(&self, other: &u8) -> bool {
        ip_protocol_value(*self) == *other
    }
}

impl PartialEq<IpProtocol> for u8 {
    fn eq(&self, other: &IpProtocol) -> (r: bool)
        ensures
            r == (*self == ip_protocol_value(*other)),
    {
        u8::from(*other) == *self
    }
}

impl vstd::std_specs::cmp::PartialEqSpecImpl<IpProtocol> for u8 {
    open spec fn obeys_eq_spec() -> bool {
        true
    }

    open spec fn eq_spec(&self, other: &IpProtocol) -> bool {
        *self == ip_protocol_value(*other)
    }
}

/// Link types of captured frames, as in pcap-linktype(7).
#[derive(Debug, Clone, Copy)]
pub enum LinkType {
    Null,
    Ethernet,
    Ax25,
    TokenRing,
    ArcNet,
    Slip,
    Ppp,
    Fddi,
    PppHdlc,
    PppEthernet,
    AtmRfc1483,
    Raw,
    Chdlc,
    Ieee802_11,
    Relay,
    Loop,
    LinuxSLL,
    Talk,
    PfLog,
    PrismHeader,
    IpOverFc,
    SunAtm,
    Ieee80211Radio,
    ArcNetLinux,
    IpOver1394,
    Mtp2Phdr,
    Mtp2,
    Mtp3,
    Sccp,
    Docsis,
    LinuxIrda,
    LinuxLapd,
    LinuxUsb,
    Ipv4,
    Ipv6,
}

/// The number that stands for each LinkType.
pub open spec fn link_type_value(e: LinkType) -> u8 {
    match e {
        LinkType::Null => 0,
        LinkType::Ethernet => 1,
        LinkType::Ax25 => 3,
        LinkType::TokenRing => 6,
        LinkType::ArcNet => 7,
        LinkType::Slip => 8,
        LinkType::Ppp => 9,
        LinkType::Fddi => 10,
        LinkType::PppHdlc => 50,
        LinkType::PppEthernet => 51,
        LinkType::AtmRfc1483 => 100,
        LinkType::Raw => 101,
        LinkType::Chdlc => 104,
        LinkType::Ieee802_11 => 105,
        LinkType::Relay => 107,
        LinkType::Loop => 108,
        LinkType::LinuxSLL => 113,
        LinkType::Talk => 114,
        LinkType::PfLog => 117,
        LinkType::PrismHeader => 119,
        LinkType::IpOverFc => 122,
        LinkType::SunAtm => 123,
        LinkType::Ieee80211Radio => 127,
        LinkType::ArcNetLinux => 129,
        LinkType::IpOver1394 => 138,
        LinkType::Mtp2Phdr => 139,
        LinkType::Mtp2 => 140,
        LinkType::Mtp3 => 141,
        LinkType::Sccp => 142,
        LinkType::Docsis => 143,
        LinkType::LinuxIrda => 144,
        LinkType::LinuxLapd => 177,
        LinkType::LinuxUsb => 220,
        LinkType::Ipv4 => 228,
        LinkType::Ipv6 => 229,
    }
}

/// The LinkType that a number stands for, if any.
pub open spec fn link_type_of(v: u8) -> Option<LinkType> {
    if v == 0 {
        Some(LinkType::Null)
    } else if v == 1 {
        Some(LinkType::Ethernet)
    } else if v == 3 {
        Some(LinkType::Ax25)
    } else if v == 6 {
        Some(LinkType::TokenRing)
    } else if v == 7 {
        Some(LinkType::ArcNet)
    } else if v == 8 {
        Some(LinkType::Slip)
    } else if v == 9 {
        Some(LinkType::Ppp)
    } else if v == 10 {
        Some(LinkType::Fddi)
    } else if v == 50 {
        Some(LinkType::PppHdlc)
    } else if v == 51 {
        Some(LinkType::PppEthernet)
    } else if v == 100 {
        Some(LinkType::AtmRfc1483)
    } else if v == 101 {
        Some(LinkType::Raw)
    } else if v == 104 {
        Some(LinkType::Chdlc)
    } else if v == 105 {
        Some(LinkType::Ieee802_11)
    } else if v == 107 {
        Some(LinkType::Relay)
    } else if v == 108 {
        Some(LinkType::Loop)
    } else if v == 113 {
        Some(LinkType::LinuxSLL)
    } else if v == 114 {
        Some(LinkType::Talk)
    } else if v == 117 {
        Some(LinkType::PfLog)
    } else if v == 119 {
        Some(LinkType::PrismHeader)
    } else if v == 122 {
        Some(LinkType::IpOverFc)
    } else if v == 123 {
        Some(LinkType::SunAtm)
    } else if v == 127 {
        Some(LinkType::Ieee80211Radio)
    } else if v == 129 {
        Some(LinkType::ArcNetLinux)
    } else if v == 138 {
        Some(LinkType::IpOver1394)
    } else if v == 139 {
        Some(LinkType::Mtp2Phdr)
    } else if v == 140 {
        Some(LinkType::Mtp2)
    } else if v == 141 {
        Some(LinkType::Mtp3)
    } else if v == 142 {
        Some(LinkType::Sccp)
    } else if v == 143 {
        Some(LinkType::Docsis)
    } else if v == 144 {
        Some(LinkType::LinuxIrda)
    } else if v == 177 {
        Some(LinkType::LinuxLapd)
    } else if v == 220 {
        Some(LinkType::LinuxUsb)
    } else if v == 228 {
        Some(LinkType::Ipv4)
    } else if v == 229 {
        Some(LinkType::Ipv6)
    } else {
        None
    }
}

/// Each LinkType is read back from its number, and a number that is read gives it back.
pub proof fn lemma_link_type_round_trip(e: LinkType, v: u8)
    ensures
        link_type_of(link_type_value(e)) == Some(e),
        link_type_of(v) matches Some(x) ==> link_type_value(x) == v,
{
}

impl From<LinkType> for u8 {
    fn from(e: LinkType) -> (r: u8)
        ensures
            r == link_type_value(e),
    {
        match e {
            LinkType::Null => 0,
            LinkType::Ethernet => 1,
            LinkType::Ax25 => 3,
            LinkType::TokenRing => 6,
            LinkType::ArcNet => 7,
            LinkType::Slip => 8,
            LinkType::Ppp => 9,
            LinkType::Fddi => 10,
            LinkType::PppHdlc => 50,
            LinkType::PppEthernet => 51,
            LinkType::AtmRfc1483 => 100,
            LinkType::Raw => 101,
            LinkType::Chdlc => 104,
            LinkType::Ieee802_11 => 105,
            LinkType::Relay => 107,
            LinkType::Loop => 108,
            LinkType::LinuxSLL => 113,
            LinkType::Talk => 114,
            LinkType::PfLog => 117,
            LinkType::PrismHeader => 119,
            LinkType::IpOverFc => 122,
            LinkType::SunAtm => 123,
            LinkType::Ieee80211Radio => 127,
            LinkType::ArcNetLinux => 129,
            LinkType::IpOver1394 => 138,
            LinkType::Mtp2Phdr => 139,
            LinkType::Mtp2 => 140,
            LinkType::Mtp3 => 141,
            LinkType::Sccp => 142,
            LinkType::Docsis => 143,
            LinkType::LinuxIrda => 144,
            LinkType::LinuxLapd => 177,
            LinkType::LinuxUsb => 220,
            LinkType::Ipv4 => 228,
            LinkType::Ipv6 => 229,
        }
    }
}

impl vstd::std_specs::convert::FromSpecImpl<LinkType> for u8 {
    open spec fn obeys_from_spec() -> bool {
        true
    }

    open spec fn from_spec(e: LinkType) -> u8 {
        link_type_value(e)
    }
}

impl TryFrom<u8> for LinkType {
    type Error = UnknownValue;

    fn try_from(v: u8) -> (r: Result<LinkType, UnknownValue>)
        ensures
            r == unknown_or(link_type_of(v), v as u32),
    {
        match v {
            0 => Ok(LinkType::Null),
            1 => Ok(LinkType::Ethernet),
            3 => Ok(LinkType::Ax25),
            6 => Ok(LinkType::TokenRing),
            7 => Ok(LinkType::ArcNet),
            8 => Ok(LinkType::Slip),
            9 => Ok(LinkType::Ppp),
            10 => Ok(LinkType::Fddi),
            50 => Ok(LinkType::PppHdlc),
            51 => Ok(LinkType::PppEthernet),
            100 => Ok(LinkType::AtmRfc1483),
            101 => Ok(LinkType::Raw),
            104 => Ok(LinkType::Chdlc),
            105 => Ok(LinkType::Ieee802_11),
            107 => Ok(LinkType::Relay),
            108 => Ok(LinkType::Loop),
            113 => Ok(LinkType::LinuxSLL),
            114 => Ok(LinkType::Talk),
            117 => Ok(LinkType::PfLog),
            119 => Ok(LinkType::PrismHeader),
            122 => Ok(LinkType::IpOverFc),
            123 => Ok(LinkType::SunAtm),
            127 => Ok(LinkType::Ieee80211Radio),
            129 => Ok(LinkType::ArcNetLinux),
            138 => Ok(LinkType::IpOver1394),
            139 => Ok(LinkType::Mtp2Phdr),
            140 => Ok(LinkType::Mtp2),
            141 => Ok(LinkType::Mtp3),
            142 => Ok(LinkType::Sccp),
            143 => Ok(LinkType::Docsis),
            144 => Ok(LinkType::LinuxIrda),
            177 => Ok(LinkType::LinuxLapd),
            220 => Ok(LinkType::LinuxUsb),
            228 => Ok(LinkType::Ipv4),
            229 => Ok(LinkType::Ipv6),
            _ => Err(UnknownValue { number: v as u32 }),
        }
    }
}

impl vstd::std_specs::convert::TryFromSpecImpl<u8> for LinkType {
    open spec fn obeys_try_from_spec() -> bool {
        true
    }

    open spec fn try_from_spec(v: u8) -> Result<LinkType, UnknownValue> {
        unknown_or(link_type_of(v), v as u32)
    }
}

impl PartialEq for LinkType {
    fn eq(&self, other: &LinkType) -> (r: bool)
        ensures
            r == (link_type_value(*self) == link_type_value(*other)),
    {
        u8::from(*self) == u8::from(*other)
    }
}

impl vstd::std_specs::cmp::PartialEqSpecImpl for LinkType {
    open spec fn obeys_eq_spec() -> bool {
        true
    }

    open spec fn eq_spec(&self, other: &LinkType) -> bool {
        link_type_value(*self) == link_type_value(*other)
    }
}

impl Eq for LinkType {

}

impl PartialEq<u8> for LinkType {
    fn eq(&self, other: &u8) -> (r: bool)
        ensures
            r == (link_type_value(*self) == *other),
    {
        u8::from(*self) == *other
    }
}

impl vstd::std_specs::cmp::PartialEqSpecImpl<u8> for LinkType {
    open spec fn obeys_eq_spec() -> bool {
        true
    }

    open spec fn eq_spec(&self, other: &u8) -> bool {
        link_type_value(*self) == *other
    }
}

impl PartialEq<LinkType> for u8 {
    fn eq(&self, other: &LinkType) -> (r: bool)
        ensures
            r == (*self == link_type_value(*other)),
    {
        u8::from(*other) == *self
    }
}

impl vstd::std_specs::cmp::PartialEqSpecImpl<LinkType> for u8 {
    open spec fn obeys_eq_spec() -> bool {
        true
    }

    open spec fn eq_spec(&self, other: &LinkType) -> bool {
        *self == link_type_value(*other)
    }
}

/// Interface types of a host adapter; only the common ones are listed.
#[derive(Debug, Clone, Copy)]
pub enum IfType {
    Other,
    Ethernet,
    TokenRing,
    Ppp,
    Loopback,
    Atm,
    Ieee80211,
    Tunnel,
    Ieee1394,
}

/// The number that stands for each IfType.
pub open spec fn if_type_value(e: IfType) -> u32 {
    match e {
        IfType::Other => 1,
        IfType::Ethernet => 6,
        IfType::TokenRing => 9,
        IfType::Ppp => 23,
        IfType::Loopback => 24,
        IfType::Atm => 37,
        IfType::Ieee80211 => 71,
        IfType::Tunnel => 131,
        IfType::Ieee1394 => 144,
    }
}

/// The IfType that a number stands for, if any.
pub open spec fn if_type_of(v: u32) -> Option<IfType> {
    if v == 1 {
        Some(IfType::Other)
    } else if v == 6 {
        Some(IfType::Ethernet)
    } else if v == 9 {
        Some(IfType::TokenRing)
    } else if v == 23 {
        Some(IfType::Ppp)
    } else if v == 24 {
        Some(IfType::Loopback)
    } else if v == 37 {
        Some(IfType::Atm)
    } else if v == 71 {
        Some(IfType::Ieee80211)
    } else if v == 131 {
        Some(IfType::Tunnel)
    } else if v == 144 {
        Some(IfType::Ieee1394)
    } else {
        None
    }
}

/// Each IfType is read back from its number, and a number that is read gives it back.
pub proof fn lemma_if_type_round_trip(e: IfType, v: u32)
    ensures
        if_type_of(if_type_value(e)) == Some(e),
        if_type_of(v) matches Some(x) ==> if_type_value(x) == v,
{
}

impl From<IfType> for u32 {
    fn from(e: IfType) -> (r: u32)
        ensures
            r == if_type_value(e),
    {
        match e {
            IfType::Other => 1,
            IfType::Ethernet => 6,
            IfType::TokenRing => 9,
            IfType::Ppp => 23,
            IfType::Loopback => 24,
            IfType::Atm => 37,
            IfType::Ieee80211 => 71,
            IfType::Tunnel => 131,
            IfType::Ieee1394 => 144,
        }
    }
}

impl vstd::std_specs::convert::FromSpecImpl<IfType> for u32 {
    open spec fn obeys_from_spec() -> bool {
        true
    }

    open spec fn from_spec(e: IfType) -> u32 {
        if_type_value(e)
    }
}

impl TryFrom<u32> for IfType {
    type Error = UnknownValue;

    fn try_from(v: u32) -> (r: Result<IfType, UnknownValue>)
        ensures
            r == unknown_or(if_type_of(v), v as u32),
    {
        match v {
            1 => Ok(IfType::Other),
            6 => Ok(IfType::Ethernet),
            9 => Ok(IfType::TokenRing),
            23 => Ok(IfType::Ppp),
            24 => Ok(IfType::Loopback),
            37 => Ok(IfType::Atm),
            71 => Ok(IfType::Ieee80211),
            131 => Ok(IfType::Tunnel),
            144 => Ok(IfType::Ieee1394),
            _ => Err(UnknownValue { number: v as u32 }),
        }
    }
}

impl vstd::std_specs::convert::TryFromSpecImpl<u32> for IfType {
    open spec fn obeys_try_from_spec() -> bool {
        true
    }

    open spec fn try_from_spec(v: u32) -> Result<IfType, UnknownValue> {
        unknown_or(if_type_of(v), v as u32)
    }
}

impl PartialEq for IfType {
    fn eq(&self, other: &IfType) -> (r: bool)
        ensures
            r == (if_type_value(*self) == if_type_value(*other)),
    {
        u32::from(*self) == u32::from(*other)
    }
}

impl vstd::std_specs::cmp::PartialEqSpecImpl for IfType {
    open spec fn obeys_eq_spec() -> bool {
        true
    }

    open spec fn eq_spec(&self, other: &IfType) -> bool {
        if_type_value(*self) == if_type_value(*other)
    }
}

impl Eq for IfType {

}

impl Default for EthernetType {
    fn default() -> (r: Self)
        ensures
            r == EthernetType::Llc,
    {
        EthernetType::Llc
    }
}

impl Default for IpProtocol {
    fn default() -> (r: Self)
        ensures
            r == IpProtocol::Ipv6HopByHop,
    {
        IpProtocol::Ipv6HopByHop
    }
}

/// Where traffic was captured: anywhere, at an ISP numbered 1 to 255, at the top of a
/// rack, or the bound that no capture point reaches.
#[derive(Debug, Clone, Copy, PartialEq, Eq, Structural)]
pub enum TapType {
    Any,
    Isp(u8),
    Tor,
    Max,
}

/// The TapType that a number stands for: 0 and 3 are named, the rest below 256 are ISPs.
pub open spec fn tap_type_of(v: u16) -> Option<TapType> {
    if v == 0 {
        Some(TapType::Any)
    } else if v == 3 {
        Some(TapType::Tor)
    } else if v < 256 {
        Some(TapType::Isp(v as u8))
    } else {
        None
    }
}

/// The number that stands for each TapType.
pub open spec fn tap_type_value(t: TapType) -> u16 {
    match t {
        TapType::Any => 0,
        TapType::Isp(v) => v as u16,
        TapType::Tor => 3,
        TapType::Max => 256,
    }
}

/// Every number that is read gives itself back, and every TapType but `Max` and the ISP
/// numbers 0 and 3 is read back from its number.
pub proof fn lemma_tap_type_round_trip(t: TapType, v: u16)
    ensures
        tap_type_of(v) matches Some(x) ==> tap_type_value(x) == v,
        !(t is Max) && !(t matches TapType::Isp(n) && (n == 0 || n == 3)) ==> tap_type_of(
            tap_type_value(t),
        ) == Some(t),
{
}

impl TryFrom<u16> for TapType {
    type Error = UnknownValue;

    fn try_from(t: u16) -> (r: Result<TapType, UnknownValue>)
        ensures
            r == unknown_or(tap_type_of(t), t as u32),
    {
        match t {
            0 => Ok(TapType::Any),
            3 => Ok(TapType::Tor),
            v if v < 256 => Ok(TapType::Isp(v as u8)),
            _ => Err(UnknownValue { number: t as u32 }),
        }
    }
}

impl vstd::std_specs::convert::TryFromSpecImpl<u16> for TapType {
    open spec fn obeys_try_from_spec() -> bool {
        true
    }

    open spec fn try_from_spec(v: u16) -> Result<TapType, UnknownValue> {
        unknown_or(tap_type_of(v), v as u32)
    }
}

impl From<TapType> for u16 {
    fn from(t: TapType) -> (r: u16)
        ensures
            r == tap_type_value(t),
    {
        match t {
            TapType::Any => 0,
            TapType::Isp(v) => v as u16,
            TapType::Tor => 3,
            TapType::Max => 256,
        }
    }
}

impl vstd::std_specs::convert::FromSpecImpl<TapType> for u16 {
    open spec fn obeys_from_spec() -> bool {
        true
    }

    open spec fn from_spec(t: TapType) -> u16 {
        tap_type_value(t)
    }
}

impl Default for TapType {
    fn default() -> (r: TapType)
        ensures
            r == TapType::Any,
    {
        TapType::Any
    }
}

/// The character of a decimal digit.
pub open spec fn digit_char(d: nat) -> char {
    seq!['0', '1', '2', '3', '4', '5', '6', '7', '8', '9'][(d % 10) as int]
}

/// The decimal digits of `n`, with no leading zero.
pub open spec fn decimal(n: nat) -> Seq<char>
    decreases n,
{
    if n < 10 {
        seq![digit_char(n)]
    } else {
        decimal(n / 10).push(digit_char(n % 10))
    }
}

/// Relies on the `Display` of `u8` behind `ToString`: the number in decimal digits.
#[verifier::external_body]
fn decimal_string(n: u8) -> (r: String)
    ensures
        r@ == decimal(n as nat),
{
    n.to_string()
}

/// The name of a TapType.
pub open spec fn tap_type_name(t: TapType) -> Seq<char> {
    match t {
        TapType::Any => "any"@,
        TapType::Isp(n) => "isp"@ + decimal(n as nat),
        TapType::Tor => "tor"@,
        TapType::Max => "max"@,
    }
}

impl TapType {
    /// The name of the capture point: `any`, `isp` and its number, `tor` or `max`.
    pub fn to_string(&self) -> (r: String)
        ensures
            r@ == tap_type_name(*self),
    {
        match self {
            TapType::Any => "any".to_owned(),
            TapType::Isp(n) => {
                let digits = decimal_string(*n);
                "isp".to_owned().concat(digits.as_str())
            },
            TapType::Tor => "tor".to_owned(),
            TapType::Max => "max".to_owned(),
        }
    }
}

/// The name of an IfType.
pub open spec fn if_type_name(t: IfType) -> Seq<char> {
    match t {
        IfType::Other => "other"@,
        IfType::Ethernet => "ethernet"@,
        IfType::TokenRing => "tokenping"@,
        IfType::Ppp => "ppp"@,
        IfType::Loopback => "loopback"@,
        IfType::Atm => "atm"@,
        IfType::Ieee80211 => "ieee80211"@,
        IfType::Tunnel => "tunnel"@,
        IfType::Ieee1394 => "ieee1394"@,
    }
}

impl IfType {
    /// The name of the interface type.
    pub fn to_string(&self) -> (r: String)
        ensures
            r@ == if_type_name(*self),
    {
        match self {
            IfType::Other => "other".to_owned(),
            IfType::Ethernet => "ethernet".to_owned(),
            IfType::TokenRing => "tokenping".to_owned(),
            IfType::Ppp => "ppp".to_owned(),
            IfType::Loopback => "loopback".to_owned(),
            IfType::Atm => "atm".to_owned(),
            IfType::Ieee80211 => "ieee80211".to_owned(),
            IfType::Tunnel => "tunnel".to_owned(),
            IfType::Ieee1394 => "ieee1394".to_owned(),
        }
    }
}

/// The outermost header that a packet was parsed down to.
#[derive(Debug, Clone, Copy, PartialEq, Eq, Structural)]
pub enum HeaderType {
    Invalid,
    Eth,
    Arp,
    Ipv4,
    Ipv4Icmp,
    Ipv6,
    Ipv4Tcp,
    Ipv4Udp,
    Ipv6Tcp,
    Ipv6Udp,
}

#[allow(non_upper_case_globals)]
impl HeaderType {
    pub const L2: HeaderType = HeaderType::Eth;
    pub const L3: HeaderType = HeaderType::Ipv4;
    pub const L3Ipv6: HeaderType = HeaderType::Ipv6;
    pub const L4: HeaderType = HeaderType::Ipv4Tcp;
    pub const L4Ipv6: HeaderType = HeaderType::Ipv6Tcp;
}

/// The number that stands for each HeaderType.
pub open spec fn header_type_value(h: HeaderType) -> u8 {
    match h {
        HeaderType::Invalid => 0,
        HeaderType::Eth => 0x1,
        HeaderType::Arp => 0x2,
        HeaderType::Ipv4 => 0x20,
        HeaderType::Ipv4Icmp => 0x21,
        HeaderType::Ipv6 => 0x40,
        HeaderType::Ipv4Tcp => 0x80,
        HeaderType::Ipv4Udp => 0x81,
        HeaderType::Ipv6Tcp => 0xb0,
        HeaderType::Ipv6Udp => 0xb1,
    }
}

impl From<HeaderType> for u8 {
    fn from(h: HeaderType) -> (r: u8)
        ensures
            r == header_type_value(h),
    {
        match h {
            HeaderType::Invalid => 0,
            HeaderType::Eth => 0x1,
            HeaderType::Arp => 0x2,
            HeaderType::Ipv4 => 0x20,
            HeaderType::Ipv4Icmp => 0x21,
            HeaderType::Ipv6 => 0x40,
            HeaderType::Ipv4Tcp => 0x80,
            HeaderType::Ipv4Udp => 0x81,
            HeaderType::Ipv6Tcp => 0xb0,
            HeaderType::Ipv6Udp => 0xb1,
        }
    }
}

impl vstd::std_specs::convert::FromSpecImpl<HeaderType> for u8 {
    open spec fn obeys_from_spec() -> bool {
        true
    }

    open spec fn from_spec(h: HeaderType) -> u8 {
        header_type_value(h)
    }
}

impl Default for HeaderType {
    fn default() -> (r: HeaderType)
        ensures
            r == HeaderType::Invalid,
    {
        HeaderType::Invalid
    }
}

} // verus!
