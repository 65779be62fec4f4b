use network_types::eth::{EthHdr, EtherType};
use network_types::icmp::IcmpHdr;
use network_types::ip::{IpProto, Ipv4Hdr, Ipv6Hdr};
use network_types::tcp::TcpHdr;
use network_types::udp::UdpHdr;
use xdp_filter::frame::{
    classify_ether_type, classify_protocol, header_at, EtherKind, FrameError, Transport,
    ETHER_TYPE_IPV4, ETHER_TYPE_IPV6, ETH_HDR_LEN, IPV4_HDR_LEN, IPV6_HDR_LEN, PROTO_TCP,
    PROTO_UDP, TCP_HDR_LEN, UDP_HDR_LEN,
};

#[test]
fn header_sizes_are_those_of_the_header_structs() {
    assert_eq!(ETH_HDR_LEN, EthHdr::LEN);
    assert_eq!(IPV4_HDR_LEN, Ipv4Hdr::LEN);
    assert_eq!(IPV6_HDR_LEN, Ipv6Hdr::LEN);
    assert_eq!(TCP_HDR_LEN, TcpHdr::LEN);
    assert_eq!(UDP_HDR_LEN, UdpHdr::LEN);
    assert_eq!(xdp_filter::frame::ICMP_HDR_LEN, IcmpHdr::LEN);
    assert_eq!((ETH_HDR_LEN, IPV4_HDR_LEN, IPV6_HDR_LEN), (14, 20, 40));
    assert_eq!((TCP_HDR_LEN, UDP_HDR_LEN, xdp_filter::frame::ICMP_HDR_LEN), (20, 8, 8));
}

#[test]
fn payload_types_and_protocol_numbers() {
    assert_eq!(ETHER_TYPE_IPV4, u16::from_be(EtherType::Ipv4 as u16));
    assert_eq!(ETHER_TYPE_IPV6, u16::from_be(EtherType::Ipv6 as u16));
    assert_eq!(PROTO_TCP, IpProto::Tcp as u8);
    assert_eq!(PROTO_UDP, IpProto::Udp as u8);
    assert_eq!(classify_ether_type(0x0800), EtherKind::Ipv4);
    assert_eq!(classify_ether_type(0x86dd), EtherKind::Ipv6);
    assert_eq!(classify_ether_type(0x0806), EtherKind::Other);
    assert_eq!(classify_ether_type(0x0008), EtherKind::Other);
    assert_eq!(classify_protocol(6), Transport::Tcp);
    assert_eq!(classify_protocol(17), Transport::Udp);
    assert_eq!(classify_protocol(1), Transport::Icmp);
    assert_eq!(classify_protocol(58), Transport::Other);
    assert_eq!(classify_protocol(0), Transport::Other);
}

#[test]
fn a_header_must_lie_inside_the_frame() {
    let frame = [0u8; 34];
    assert_eq!(header_at(&frame, 0, 14), Ok(0));
    assert_eq!(header_at(&frame, 14, 20), Ok(14));
    assert_eq!(header_at(&frame, 34, 0), Ok(34));
    assert_eq!(header_at(&frame, 15, 20), Err(FrameError::OutOfBounds));
    assert_eq!(header_at(&frame, 35, 0), Err(FrameError::OutOfBounds));
    assert_eq!(header_at(&frame, usize::MAX, 2), Err(FrameError::OutOfBounds));
    assert_eq!(header_at(&frame, 2, usize::MAX), Err(FrameError::OutOfBounds));
}
