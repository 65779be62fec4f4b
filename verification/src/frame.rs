//! How a frame is read: link layer, network layer, and the one transport
//! field that is kept for the record.
//!
//! Every read is preceded by a check that the bytes are there. Header sizes
//! are those of the structs of `network_types`; protocol numbers and the
//! place of each field inside its header are written down here.

use crate::wire::be_value;
use crate::wire::read_be;
use crate::wire::read_be16;
use crate::wire::read_be32;
use network_types::eth::EthHdr;
use network_types::icmp::IcmpHdr;
use network_types::ip::Ipv4Hdr;
use network_types::ip::Ipv6Hdr;
use network_types::tcp::TcpHdr;
use network_types::udp::UdpHdr;
use vstd::prelude::*;

verus! {

/// Size of the Ethernet header.
pub const ETH_HDR_LEN: usize = 14;

/// Size of the IPv4 header without options.
pub const IPV4_HDR_LEN: usize = 20;

/// Size of the fixed IPv6 header.
pub const IPV6_HDR_LEN: usize = 40;

/// Size of the TCP header without options.
pub const TCP_HDR_LEN: usize = 20;

/// Size of the UDP header.
pub const UDP_HDR_LEN: usize = 8;

/// Size of the ICMP header.
pub const ICMP_HDR_LEN: usize = 8;

/// Where the payload type stands in the Ethernet header.
pub const ETHER_TYPE_AT: usize = 12;

/// Where the protocol number stands in the IPv4 header.
pub const IPV4_PROTO_AT: usize = 9;

/// Where the source address stands in the IPv4 header.
pub const IPV4_SRC_AT: usize = 12;

/// Where the destination address stands in the IPv4 header.
pub const IPV4_DST_AT: usize = 16;

/// Where the next-header number stands in the IPv6 header.
pub const IPV6_NEXT_AT: usize = 6;

/// Where the source address stands in the IPv6 header.
pub const IPV6_SRC_AT: usize = 8;

/// Where the destination address stands in the IPv6 header.
pub const IPV6_DST_AT: usize = 24;

/// Where the source port stands in the TCP and in the UDP header.
pub const SRC_PORT_AT: usize = 0;

/// Where the echo identifier stands in the ICMP header.
pub const ICMP_ID_AT: usize = 4;

/// Payload type of an IPv4 frame.
pub const ETHER_TYPE_IPV4: u16 = 0x0800;

/// Payload type of an IPv6 frame.
pub const ETHER_TYPE_IPV6: u16 = 0x86DD;

/// Protocol number of ICMP.
pub const PROTO_ICMP: u8 = 1;

/// Protocol number of TCP.
pub const PROTO_TCP: u8 = 6;

/// Protocol number of UDP.
pub const PROTO_UDP: u8 = 17;

/// What the link layer carries.
#[derive(Clone, Copy, Debug, PartialEq, Eq, Structural)]
pub enum EtherKind {
    Ipv4,
    Ipv6,
    Other,
}

/// What the network layer carries.
#[derive(Clone, Copy, Debug, PartialEq, Eq, Structural)]
pub enum Transport {
    Tcp,
    Udp,
    Icmp,
    Other,
}

/// An address of either family, as the number its bytes spell in network
/// order.
#[derive(Clone, Copy, Debug, PartialEq, Eq, Structural)]
pub enum Address {
    V4(u32),
    V6(u128),
}

/// Why a frame could not be read.
#[derive(Clone, Copy, Debug, PartialEq, Eq, Structural)]
pub enum FrameError {
    /// A header reaches beyond the end of the frame.
    OutOfBounds,
    /// The transport protocol is none of TCP, UDP and ICMP.
    UnknownTransport,
}

/// What the ingress hook has read from a frame.
#[derive(Clone, Copy, Debug, PartialEq, Eq, Structural)]
pub enum Inbound {
    /// Neither IPv4 nor IPv6.
    Unmatched,
    /// An IP packet from `source`; `port` is the TCP or UDP source port, or
    /// the ICMP echo identifier.
    From { source: Address, port: u16 },
}

/// What the egress hook has read from a frame.
#[derive(Clone, Copy, Debug, PartialEq, Eq, Structural)]
pub enum Outbound {
    /// Neither IPv4 nor IPv6.
    Unmatched,
    /// An IP packet to `destination`.
    To { destination: Address },
}

impl Inbound {
    /// The address whose deny entry decides on the packet, if any does.
    pub open spec fn spec_address(&self) -> Option<Address> {
        match *self {
            Inbound::Unmatched => None,
            Inbound::From { source, port } => Some(source),
        }
    }

    /// The address whose deny entry decides on the packet, if any does.
    #[verifier::when_used_as_spec(spec_address)]
    pub fn address(&self) -> (a: Option<Address>)
        ensures
            a == self.spec_address(),
    {
        match *self {
            Inbound::Unmatched => None,
            Inbound::From { source, port: _ } => Some(source),
        }
    }
}

impl Outbound {
    /// The address whose deny entry decides on the packet, if any does.
    pub open spec fn spec_address(&self) -> Option<Address> {
        match *self {
            Outbound::Unmatched => None,
            Outbound::To { destination } => Some(destination),
        }
    }

    /// The address whose deny entry decides on the packet, if any does.
    #[verifier::when_used_as_spec(spec_address)]
    pub fn address(&self) -> (a: Option<Address>)
        ensures
            a == self.spec_address(),
    {
        match *self {
            Outbound::Unmatched => None,
            Outbound::To { destination } => Some(destination),
        }
    }
}

/// The number spelled by the `width` bytes of `f` at `at`.
pub open spec fn field(f: Seq<u8>, at: int, width: int) -> nat {
    be_value(f.subrange(at, at + width))
}

/// The kind of payload that an Ethernet payload type announces.
pub open spec fn ether_kind(ether_type: u16) -> EtherKind {
    if ether_type == ETHER_TYPE_IPV4 {
        EtherKind::Ipv4
    } else if ether_type == ETHER_TYPE_IPV6 {
        EtherKind::Ipv6
    } else {
        EtherKind::Other
    }
}

/// The transport that a protocol number announces.
pub open spec fn transport(proto: u8) -> Transport {
    if proto == PROTO_TCP {
        Transport::Tcp
    } else if proto == PROTO_UDP {
        Transport::Udp
    } else if proto == PROTO_ICMP {
        Transport::Icmp
    } else {
        Transport::Other
    }
}

/// The two-byte number at `at`.
pub open spec fn field16(f: Seq<u8>, at: int) -> u16 {
    field(f, at, 2) as u16
}

/// The port, or echo identifier, of the transport header of kind `proto` that
/// starts at `at`.
pub open spec fn source_port(f: Seq<u8>, at: usize, proto: u8) -> Result<u16, FrameError> {
    match transport(proto) {
        Transport::Tcp => if at + TCP_HDR_LEN <= f.len() {
            Ok(field16(f, at + SRC_PORT_AT))
        } else {
            Err(FrameError::OutOfBounds)
        },
        Transport::Udp => if at + UDP_HDR_LEN <= f.len() {
            Ok(field16(f, at + SRC_PORT_AT))
        } else {
            Err(FrameError::OutOfBounds)
        },
        Transport::Icmp => if at + ICMP_HDR_LEN <= f.len() {
            Ok(field16(f, at + ICMP_ID_AT))
        } else {
            Err(FrameError::OutOfBounds)
        },
        Transport::Other => Err(FrameError::UnknownTransport),
    }
}

/// What the ingress hook reads from the frame `f`.
///
/// The transport header is taken to follow the network header directly:
/// IPv4 options and IPv6 extension headers are not looked for.
pub open spec fn inbound(f: Seq<u8>) -> Result<Inbound, FrameError> {
    if f.len() < ETH_HDR_LEN {
        Err(FrameError::OutOfBounds)
    } else {
        match ether_kind(field16(f, ETHER_TYPE_AT as int)) {
            EtherKind::Other => Ok(Inbound::Unmatched),
            EtherKind::Ipv4 => if f.len() < ETH_HDR_LEN + IPV4_HDR_LEN {
                Err(FrameError::OutOfBounds)
            } else {
                match source_port(
                    f,
                    (ETH_HDR_LEN + IPV4_HDR_LEN) as usize,
                    f[ETH_HDR_LEN + IPV4_PROTO_AT],
                ) {
                    Ok(port) => Ok(
                        Inbound::From {
                            source: Address::V4(field(f, ETH_HDR_LEN + IPV4_SRC_AT, 4) as u32),
                            port,
                        },
                    ),
                    Err(e) => Err(e),
                }
            },
            EtherKind::Ipv6 => if f.len() < ETH_HDR_LEN + IPV6_HDR_LEN {
                Err(FrameError::OutOfBounds)
            } else {
                match source_port(
                    f,
                    (ETH_HDR_LEN + IPV6_HDR_LEN) as usize,
                    f[ETH_HDR_LEN + IPV6_NEXT_AT],
                ) {
                    Ok(port) => Ok(
                        Inbound::From {
                            source: Address::V6(field(f, ETH_HDR_LEN + IPV6_SRC_AT, 16) as u128),
                            port,
                        },
                    ),
                    Err(e) => Err(e),
                }
            },
        }
    }
}

/// What the egress hook reads from the frame `f`.
pub open spec fn outbound(f: Seq<u8>) -> Result<Outbound, FrameError> {
    if f.len() < ETH_HDR_LEN {
        Err(FrameError::OutOfBounds)
    } else {
        match ether_kind(field16(f, ETHER_TYPE_AT as int)) {
            EtherKind::Other => Ok(Outbound::Unmatched),
            EtherKind::Ipv4 => if f.len() < ETH_HDR_LEN + IPV4_HDR_LEN {
                Err(FrameError::OutOfBounds)
            } else {
                Ok(
                    Outbound::To {
                        destination: Address::V4(field(f, ETH_HDR_LEN + IPV4_DST_AT, 4) as u32),
                    },
                )
            },
            EtherKind::Ipv6 => if f.len() < ETH_HDR_LEN + IPV6_HDR_LEN {
                Err(FrameError::OutOfBounds)
            } else {
                Ok(
                    Outbound::To {
                        destination: Address::V6(
                            field(f, ETH_HDR_LEN + IPV6_DST_AT, 16) as u128,
                        ),
                    },
                )
            },
        }
    }
}

/// `EthHdr::LEN` of `network_types`: the Ethernet header is two six-byte
/// addresses and a two-byte payload type, packed.
#[verifier::external_body]
pub(crate) fn eth_hdr_len() -> (n: usize)
    ensures
        n == ETH_HDR_LEN,
{
    EthHdr::LEN
}

/// `Ipv4Hdr::LEN` of `network_types`: the size of its IPv4 header struct,
/// which has no room for options.
#[verifier::external_body]
pub(crate) fn ipv4_hdr_len() -> (n: usize)
    ensures
        n == IPV4_HDR_LEN,
{
    Ipv4Hdr::LEN
}

/// `Ipv6Hdr::LEN` of `network_types`: the size of its fixed IPv6 header
/// struct.
#[verifier::external_body]
pub(crate) fn ipv6_hdr_len() -> (n: usize)
    ensures
        n == IPV6_HDR_LEN,
{
    Ipv6Hdr::LEN
}

/// `TcpHdr::LEN` of `network_types`: the size of its TCP header struct.
#[verifier::external_body]
pub(crate) fn tcp_hdr_len() -> (n: usize)
    ensures
        n == TCP_HDR_LEN,
{
    TcpHdr::LEN
}

/// `UdpHdr::LEN` of `network_types`: the size of its UDP header struct.
#[verifier::external_body]
pub(crate) fn udp_hdr_len() -> (n: usize)
    ensures
        n == UDP_HDR_LEN,
{
    UdpHdr::LEN
}

/// `IcmpHdr::LEN` of `network_types`: the size of its ICMP header struct.
#[verifier::external_body]
pub(crate) fn icmp_hdr_len() -> (n: usize)
    ensures
        n == ICMP_HDR_LEN,
{
    IcmpHdr::LEN
}

/// Tells IPv4 and IPv6 from every other payload type.
pub fn classify_ether_type(ether_type: u16) -> (k: EtherKind)
    ensures
        k == ether_kind(ether_type),
{
    if ether_type == ETHER_TYPE_IPV4 {
        EtherKind::Ipv4
    } else if ether_type == ETHER_TYPE_IPV6 {
        EtherKind::Ipv6
    } else {
        EtherKind::Other
    }
}

/// Tells TCP, UDP and ICMP from every other protocol number.
pub fn classify_protocol(proto: u8) -> (t: Transport)
    ensures
        t == transport(proto),
{
    if proto == PROTO_TCP {
        Transport::Tcp
    } else if proto == PROTO_UDP {
        Transport::Udp
    } else if proto == PROTO_ICMP {
        Transport::Icmp
    } else {
        Transport::Other
    }
}

/// Checks that a header of `len` bytes at `offset` lies inside the frame, and
/// hands back the offset if it does.
pub fn header_at(frame: &[u8], offset: usize, len: usize) -> (r: Result<usize, FrameError>)
    ensures
        r == (if offset + len <= frame@.len() {
            Ok::<usize, FrameError>(offset)
        } else {
            Err::<usize, FrameError>(FrameError::OutOfBounds)
        }),
        frame@.len() <= usize::MAX,
{
    let size: usize = frame.len();
    if offset <= size && len <= size - offset {
        Ok(offset)
    } else {
        Err(FrameError::OutOfBounds)
    }
}

/// Reads the source port, or the echo identifier, from the transport header
/// of kind `proto` at `at`.
pub fn read_source_port(frame: &[u8], at: usize, proto: u8) -> (r: Result<u16, FrameError>)
    requires
        at <= frame@.len(),
    ensures
        r == source_port(frame@, at, proto),
{
    match classify_protocol(proto) {
        Transport::Tcp => {
            let tcp: usize = header_at(frame, at, tcp_hdr_len())?;
            Ok(read_be16(frame, tcp + SRC_PORT_AT))
        },
        Transport::Udp => {
            let udp: usize = header_at(frame, at, udp_hdr_len())?;
            Ok(read_be16(frame, udp + SRC_PORT_AT))
        },
        Transport::Icmp => {
            let icmp: usize = header_at(frame, at, icmp_hdr_len())?;
            Ok(read_be16(frame, icmp + ICMP_ID_AT))
        },
        Transport::Other => Err(FrameError::UnknownTransport),
    }
}

/// Reads the payload type of a frame that holds an Ethernet header.
pub fn read_ether_kind(frame: &[u8]) -> (k: EtherKind)
    requires
        ETH_HDR_LEN <= frame@.len(),
    ensures
        k == ether_kind(field16(frame@, ETHER_TYPE_AT as int)),
{
    classify_ether_type(read_be16(frame, ETHER_TYPE_AT))
}

/// Reads an IPv4 address at `at`.
pub fn read_ipv4(frame: &[u8], at: usize) -> (a: Address)
    requires
        at + 4 <= frame@.len(),
    ensures
        a == Address::V4(field(frame@, at as int, 4) as u32),
{
    Address::V4(read_be32(frame, at))
}

/// Reads an IPv6 address at `at`.
pub fn read_ipv6(frame: &[u8], at: usize) -> (a: Address)
    requires
        at + 16 <= frame@.len(),
    ensures
        a == Address::V6(field(frame@, at as int, 16) as u128),
{
    Address::V6(read_be(frame, at, 16))
}

/// Reads a received frame as far as the ingress hook needs it.
pub fn parse_inbound(frame: &[u8]) -> (r: Result<Inbound, FrameError>)
    ensures
        r == inbound(frame@),
{
    let eth: usize = header_at(frame, 0, eth_hdr_len())?;
    match read_ether_kind(frame) {
        EtherKind::Other => Ok(Inbound::Unmatched),
        EtherKind::Ipv4 => {
            let ip: usize = header_at(frame, eth + eth_hdr_len(), ipv4_hdr_len())?;
            let source = read_ipv4(frame, ip + IPV4_SRC_AT);
            let proto: u8 = frame[ip + IPV4_PROTO_AT];
            let port: u16 = read_source_port(frame, ip + ipv4_hdr_len(), proto)?;
            Ok(Inbound::From { source, port })
        },
        EtherKind::Ipv6 => {
            let ip: usize = header_at(frame, eth + eth_hdr_len(), ipv6_hdr_len())?;
            let source = read_ipv6(frame, ip + IPV6_SRC_AT);
            let proto: u8 = frame[ip + IPV6_NEXT_AT];
            let port: u16 = read_source_port(frame, ip + ipv6_hdr_len(), proto)?;
            Ok(Inbound::From { source, port })
        },
    }
}

/// Reads a frame about to be sent as far as the egress hook needs it.
pub fn parse_outbound(frame: &[u8]) -> (r: Result<Outbound, FrameError>)
    ensures
        r == outbound(frame@),
{
    let eth: usize = header_at(frame, 0, eth_hdr_len())?;
    match read_ether_kind(frame) {
        EtherKind::Other => Ok(Outbound::Unmatched),
        EtherKind::Ipv4 => {
            let ip: usize = header_at(frame, eth + eth_hdr_len(), ipv4_hdr_len())?;
            Ok(Outbound::To { destination: read_ipv4(frame, ip + IPV4_DST_AT) })
        },
        EtherKind::Ipv6 => {
            let ip: usize = header_at(frame, eth + eth_hdr_len(), ipv6_hdr_len())?;
            Ok(Outbound::To { destination: read_ipv6(frame, ip + IPV6_DST_AT) })
        },
    }
}

} // verus!
