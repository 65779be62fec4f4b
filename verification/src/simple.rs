//! Two smaller ingress hooks: one that filters IPv4 senders by a single deny
//! table, and one that drops whatever goes to one fixed address.

use crate::frame::ether_kind;
use crate::frame::field;
use crate::frame::field16;
use crate::frame::eth_hdr_len;
use crate::frame::header_at;
use crate::frame::ipv4_hdr_len;
use crate::frame::read_ether_kind;
use crate::frame::tcp_hdr_len;
use crate::frame::udp_hdr_len;
use crate::frame::EtherKind;
use crate::frame::FrameError;
use crate::frame::ETHER_TYPE_AT;
use crate::frame::ETH_HDR_LEN;
use crate::frame::IPV4_DST_AT;
use crate::frame::IPV4_HDR_LEN;
use crate::frame::IPV4_PROTO_AT;
use crate::frame::IPV4_SRC_AT;
use crate::frame::PROTO_TCP;
use crate::frame::PROTO_UDP;
use crate::frame::TCP_HDR_LEN;
use crate::frame::UDP_HDR_LEN;
use crate::hooks::XdpAction;
use crate::hooks::XDP_ABORTED;
use crate::hooks::XDP_DROP;
use crate::hooks::XDP_PASS;
use crate::table::DenyTable;
use crate::wire::read_be32;
use vstd::prelude::*;

verus! {

/// The one destination that `xdp_blocker` drops: 1.2.3.4.
pub const BLOCKED_DESTINATION: u32 = 0x0102_0304;

/// What `try_xdp_hello` makes of the frame `f`, given the blocked senders.
///
/// Only IPv4 frames are looked into, and of those only TCP and UDP ones can
/// be read.
pub open spec fn hello(deny: Set<u32>, f: Seq<u8>) -> Result<XdpAction, FrameError> {
    if f.len() < ETH_HDR_LEN {
        Err(FrameError::OutOfBounds)
    } else if ether_kind(field16(f, ETHER_TYPE_AT as int)) != EtherKind::Ipv4 {
        Ok(XdpAction::Pass)
    } else if f.len() < ETH_HDR_LEN + IPV4_HDR_LEN {
        Err(FrameError::OutOfBounds)
    } else if f[ETH_HDR_LEN + IPV4_PROTO_AT] == PROTO_TCP {
        if f.len() < ETH_HDR_LEN + IPV4_HDR_LEN + TCP_HDR_LEN {
            Err(FrameError::OutOfBounds)
        } else {
            Ok(hello_action(deny, f))
        }
    } else if f[ETH_HDR_LEN + IPV4_PROTO_AT] == PROTO_UDP {
        if f.len() < ETH_HDR_LEN + IPV4_HDR_LEN + UDP_HDR_LEN {
            Err(FrameError::OutOfBounds)
        } else {
            Ok(hello_action(deny, f))
        }
    } else {
        Err(FrameError::UnknownTransport)
    }
}

/// The verdict on an IPv4 frame by its source address.
pub open spec fn hello_action(deny: Set<u32>, f: Seq<u8>) -> XdpAction {
    if deny.contains(field(f, ETH_HDR_LEN + IPV4_SRC_AT, 4) as u32) {
        XdpAction::Drop
    } else {
        XdpAction::Pass
    }
}

/// The verdict number for what `try_xdp_hello` found.
pub open spec fn hello_code(r: Result<XdpAction, FrameError>) -> u32 {
    match r {
        Ok(XdpAction::Drop) => XDP_DROP,
        Ok(XdpAction::Pass) => XDP_PASS,
        Err(_) => XDP_ABORTED,
    }
}

/// The verdict number of `xdp_blocker` for the packet `f`, which starts with
/// its IPv4 header.
pub open spec fn blocker_code(f: Seq<u8>) -> u32 {
    if f.len() < IPV4_HDR_LEN {
        XDP_PASS
    } else if field(f, IPV4_DST_AT as int, 4) == BLOCKED_DESTINATION {
        XDP_DROP
    } else {
        XDP_PASS
    }
}

/// Whether `ip` is in the deny table.
pub fn block_ip(blocklist: &DenyTable<u32>, ip: u32) -> (b: bool)
    requires
        blocklist.wf(),
    ensures
        b == blocklist@.contains(ip),
{
    blocklist.contains(&ip)
}

/// Classifies one received frame by its IPv4 source address alone.
pub fn try_xdp_hello(blocklist: &DenyTable<u32>, frame: &[u8]) -> (r: Result<
    XdpAction,
    FrameError,
>)
    requires
        blocklist.wf(),
    ensures
        r == hello(blocklist@, frame@),
{
    let eth: usize = header_at(frame, 0, eth_hdr_len())?;
    match read_ether_kind(frame) {
        EtherKind::Ipv4 => {},
        _ => {
            return Ok(XdpAction::Pass);
        },
    }
    let ip: usize = header_at(frame, eth + eth_hdr_len(), ipv4_hdr_len())?;
    let source: u32 = read_be32(frame, ip + IPV4_SRC_AT);
    let proto: u8 = frame[ip + IPV4_PROTO_AT];
    if proto == PROTO_TCP {
        header_at(frame, ip + ipv4_hdr_len(), tcp_hdr_len())?;
    } else if proto == PROTO_UDP {
        header_at(frame, ip + ipv4_hdr_len(), udp_hdr_len())?;
    } else {
        return Err(FrameError::UnknownTransport);
    }
    if block_ip(blocklist, source) {
        Ok(XdpAction::Drop)
    } else {
        Ok(XdpAction::Pass)
    }
}

/// The IPv4-only ingress hook: classifies one received frame and hands back
/// the verdict number.
pub fn xdp_hello(blocklist: &DenyTable<u32>, frame: &[u8]) -> (code: u32)
    requires
        blocklist.wf(),
    ensures
        code == hello_code(hello(blocklist@, frame@)),
{
    match try_xdp_hello(blocklist, frame) {
        Ok(XdpAction::Drop) => XDP_DROP,
        Ok(XdpAction::Pass) => XDP_PASS,
        Err(_) => XDP_ABORTED,
    }
}

/// Drops a packet whose destination is 1.2.3.4 and passes every other one.
/// The packet is taken to start with its IPv4 header; one too short to hold
/// that header passes.
pub fn xdp_blocker(packet: &[u8]) -> (code: u32)
    ensures
        code == blocker_code(packet@),
{
    if packet.len() < ipv4_hdr_len() {
        return XDP_PASS;
    }
    if read_be32(packet, IPV4_DST_AT) == BLOCKED_DESTINATION {
        XDP_DROP
    } else {
        XDP_PASS
    }
}

} // verus!
