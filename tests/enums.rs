use l7_custom::enums::{
    EthernetType, HeaderType, IfType, IpProtocol, LinkType, TapType, UnknownValue,
};

#[test]
fn assert_ethernet_type() {
    let eth_type = EthernetType::Ipv6;
    let ipv6: u16 = eth_type.into();
    assert_eq!(eth_type, 0x86DDu16);
    assert_eq!(0x86DDu16, eth_type);
    assert_eq!(ipv6, 0x86DDu16);
    assert_eq!(Ok(EthernetType::Arp), EthernetType::try_from(0x806u16));
}

#[test]
fn assert_link_type() {
    let link_type = LinkType::Ppp;
    assert_eq!(link_type, 9);
    assert_eq!(9, link_type);
    assert_eq!(Ok(LinkType::Talk), LinkType::try_from(114u8));
}

#[test]
fn assert_ip_protocol() {
    let ip = IpProtocol::Icmpv6;
    assert_eq!(ip, 58);
    assert_eq!(58, ip);
    assert_eq!(Ok(IpProtocol::Udp), IpProtocol::try_from(17u8));
}

#[test]
fn unknown_codes_are_refused() {
    assert_eq!(EthernetType::try_from(0x1234u16), Err(UnknownValue { number: 0x1234 }));
    assert_eq!(IpProtocol::try_from(3u8), Err(UnknownValue { number: 3 }));
    assert_eq!(LinkType::try_from(2u8), Err(UnknownValue { number: 2 }));
    assert_eq!(IfType::try_from(2u32), Err(UnknownValue { number: 2 }));
}

#[test]
fn defaults_are_the_sentinels() {
    assert_eq!(EthernetType::default(), EthernetType::Llc);
    assert_eq!(IpProtocol::default(), IpProtocol::Ipv6HopByHop);
    assert_eq!(TapType::default(), TapType::Any);
    assert_eq!(HeaderType::default(), HeaderType::Invalid);
}

#[test]
fn tap_type_numbers() {
    assert_eq!(TapType::try_from(0u16), Ok(TapType::Any));
    assert_eq!(TapType::try_from(3u16), Ok(TapType::Tor));
    assert_eq!(TapType::try_from(4u16), Ok(TapType::Isp(4)));
    assert_eq!(TapType::try_from(255u16), Ok(TapType::Isp(255)));
    assert_eq!(TapType::try_from(256u16), Err(UnknownValue { number: 256 }));
    assert_eq!(u16::from(TapType::Max), 256);
    assert_eq!(u16::from(TapType::Isp(7)), 7);
}

#[test]
fn tap_type_names() {
    assert_eq!(TapType::Any.to_string(), "any");
    assert_eq!(TapType::Isp(42).to_string(), "isp42");
    assert_eq!(TapType::Isp(7).to_string(), "isp7");
    assert_eq!(TapType::Tor.to_string(), "tor");
    assert_eq!(TapType::Max.to_string(), "max");
}

#[test]
fn if_type_numbers_and_names() {
    assert_eq!(IfType::try_from(71u32), Ok(IfType::Ieee80211));
    assert_eq!(u32::from(IfType::Tunnel), 131);
    assert_eq!(IfType::TokenRing.to_string(), "tokenping");
    assert_eq!(IfType::Loopback.to_string(), "loopback");
}

#[test]
fn header_type_numbers() {
    assert_eq!(u8::from(HeaderType::L2), 0x1);
    assert_eq!(u8::from(HeaderType::L3Ipv6), 0x40);
    assert_eq!(u8::from(HeaderType::L4), 0x80);
    assert_eq!(u8::from(HeaderType::Ipv6Udp), 0xb1);
}
