//! The two packet hooks: the ingress classifier and the egress classifier.
//!
//! Each hook takes one frame and gives one verdict. It reads a fixed number
//! of bytes at fixed places, and neither allocates nor waits.

use crate::frame::ether_kind;
use crate::frame::field;
use crate::frame::field16;
use crate::frame::inbound;
use crate::frame::outbound;
use crate::frame::parse_inbound;
use crate::frame::parse_outbound;
use crate::frame::Address;
use crate::frame::EtherKind;
use crate::frame::FrameError;
use crate::frame::Inbound;
use crate::frame::Outbound;
use crate::frame::ETHER_TYPE_AT;
use crate::frame::ETH_HDR_LEN;
use crate::frame::IPV4_HDR_LEN;
use crate::frame::IPV4_SRC_AT;
use crate::frame::IPV6_HDR_LEN;
use crate::frame::IPV6_SRC_AT;
use crate::rate::blocked_by;
use crate::rate::RateLimit;
use crate::store::Store;
use crate::store::StoreView;
use crate::table::has_room;
use vstd::prelude::*;

verus! {

/// Verdict number of the ingress hook for a frame it could not read.
pub const XDP_ABORTED: u32 = 0;

/// Verdict number of the ingress hook for a frame to be dropped.
pub const XDP_DROP: u32 = 1;

/// Verdict number of the ingress hook for a frame to be let through.
pub const XDP_PASS: u32 = 2;

/// Verdict number of the egress hook for a frame to be dropped.
pub const TC_ACT_SHOT: i32 = 2;

/// Verdict number of the egress hook for a frame to be sent on.
pub const TC_ACT_PIPE: i32 = 3;

/// A verdict of the ingress hook on a frame it could read.
#[derive(Clone, Copy, Debug, PartialEq, Eq, Structural)]
pub enum XdpAction {
    Drop,
    Pass,
}

/// A verdict of the egress hook on a frame it could read.
#[derive(Clone, Copy, Debug, PartialEq, Eq, Structural)]
pub enum TcAction {
    Shot,
    Pipe,
}

/// What the ingress hook read and decided: the record of one frame.
#[derive(Clone, Copy, Debug, PartialEq, Eq, Structural)]
pub struct IngressRecord {
    /// What was read from the frame.
    pub packet: Inbound,
    /// The verdict.
    pub action: XdpAction,
}

/// What the egress hook read and decided: the record of one frame.
#[derive(Clone, Copy, Debug, PartialEq, Eq, Structural)]
pub struct EgressRecord {
    /// What was read from the frame.
    pub packet: Outbound,
    /// The verdict.
    pub action: TcAction,
}

/// What the ingress hook does with a packet once the deny table has
/// answered.
#[derive(Clone, Copy, Debug, PartialEq, Eq, Structural)]
pub struct IngressPlan {
    /// The record of the frame, with the verdict.
    pub record: IngressRecord,
    /// The sender against whom the packet is to be counted, if it is.
    pub count: Option<Address>,
}

/// What follows for a received packet from what the deny table says of its
/// sender: a packet that is not an IP packet passes uncounted, one from a
/// blocked sender is dropped uncounted, any other passes and is counted.
pub open spec fn ingress_plan(packet: Inbound, denied: bool) -> IngressPlan {
    match packet {
        Inbound::Unmatched => IngressPlan {
            record: IngressRecord { packet, action: XdpAction::Pass },
            count: None,
        },
        Inbound::From { source, port } => if denied {
            IngressPlan { record: IngressRecord { packet, action: XdpAction::Drop }, count: None }
        } else {
            IngressPlan {
                record: IngressRecord { packet, action: XdpAction::Pass },
                count: Some(source),
            }
        },
    }
}

/// What follows for a packet about to be sent from what the deny table says
/// of its destination.
pub open spec fn egress_record(packet: Outbound, denied: bool) -> EgressRecord {
    match packet {
        Outbound::Unmatched => EgressRecord { packet, action: TcAction::Pipe },
        Outbound::To { destination } => if denied {
            EgressRecord { packet, action: TcAction::Shot }
        } else {
            EgressRecord { packet, action: TcAction::Pipe }
        },
    }
}

/// The verdict on a received packet, given the deny tables of `s`.
pub open spec fn ingress_action(s: StoreView, packet: Inbound) -> XdpAction {
    match packet {
        Inbound::Unmatched => XdpAction::Pass,
        Inbound::From { source, port } => if s.denies(source) {
            XdpAction::Drop
        } else {
            XdpAction::Pass
        },
    }
}

/// The verdict on a packet about to be sent, given the deny tables of `s`.
pub open spec fn egress_action(s: StoreView, packet: Outbound) -> TcAction {
    match packet {
        Outbound::Unmatched => TcAction::Pipe,
        Outbound::To { destination } => if s.denies(destination) {
            TcAction::Shot
        } else {
            TcAction::Pipe
        },
    }
}

/// What the ingress hook reports for the frame `f`.
pub open spec fn ingress(s: StoreView, f: Seq<u8>) -> Result<IngressRecord, FrameError> {
    match inbound(f) {
        Ok(packet) => Ok(IngressRecord { packet, action: ingress_action(s, packet) }),
        Err(e) => Err(e),
    }
}

/// The store after the ingress hook has seen the frame `f` at `now`: a
/// packet that passes is counted against its sender, and nothing else
/// changes anything.
pub open spec fn after_ingress(s: StoreView, f: Seq<u8>, now: u64) -> StoreView {
    match inbound(f) {
        Ok(Inbound::From { source, port }) => after_packet(s, source, now),
        _ => s,
    }
}

/// The store after the ingress hook has seen a readable packet from
/// `source` at `now`.
pub open spec fn after_packet(s: StoreView, source: Address, now: u64) -> StoreView {
    if s.denies(source) {
        s
    } else {
        s.observed(source, now)
    }
}

/// The store after the ingress hook has seen one readable packet from
/// `source` at each of `times`, in turn.
pub open spec fn after_packets(s: StoreView, source: Address, times: Seq<u64>) -> StoreView
    decreases times.len(),
{
    if times.len() == 0 {
        s
    } else {
        after_packet(after_packets(s, source, times.drop_last()), source, times.last())
    }
}

/// What the egress hook reports for the frame `f`.
pub open spec fn egress(s: StoreView, f: Seq<u8>) -> Result<EgressRecord, FrameError> {
    match outbound(f) {
        Ok(packet) => Ok(EgressRecord { packet, action: egress_action(s, packet) }),
        Err(e) => Err(e),
    }
}

/// The verdict number that the ingress hook hands back.
pub open spec fn xdp_code(r: Result<IngressRecord, FrameError>) -> u32 {
    match r {
        Ok(record) => match record.action {
            XdpAction::Drop => XDP_DROP,
            XdpAction::Pass => XDP_PASS,
        },
        Err(_) => XDP_ABORTED,
    }
}

/// The verdict number that the egress hook hands back. A frame that could
/// not be read is dropped.
pub open spec fn tc_code(r: Result<EgressRecord, FrameError>) -> i32 {
    match r {
        Ok(record) => match record.action {
            TcAction::Shot => TC_ACT_SHOT,
            TcAction::Pipe => TC_ACT_PIPE,
        },
        Err(_) => TC_ACT_SHOT,
    }
}

/// Decides on a received packet once the deny table has answered for its
/// sender. For a packet without a sender to ask about, `denied` is not
/// looked at.
pub fn plan_ingress(packet: Inbound, denied: bool) -> (plan: IngressPlan)
    ensures
        plan == ingress_plan(packet, denied),
{
    match packet {
        Inbound::Unmatched => IngressPlan {
            record: IngressRecord { packet, action: XdpAction::Pass },
            count: None,
        },
        Inbound::From { source, port: _ } => if denied {
            IngressPlan { record: IngressRecord { packet, action: XdpAction::Drop }, count: None }
        } else {
            IngressPlan {
                record: IngressRecord { packet, action: XdpAction::Pass },
                count: Some(source),
            }
        },
    }
}

/// Decides on a packet about to be sent once the deny table has answered for
/// its destination. For a packet without a destination to ask about,
/// `denied` is not looked at.
pub fn plan_egress(packet: Outbound, denied: bool) -> (record: EgressRecord)
    ensures
        record == egress_record(packet, denied),
{
    match packet {
        Outbound::Unmatched => EgressRecord { packet, action: TcAction::Pipe },
        Outbound::To { destination: _ } => if denied {
            EgressRecord { packet, action: TcAction::Shot }
        } else {
            EgressRecord { packet, action: TcAction::Pipe }
        },
    }
}

/// The verdict number for what the ingress hook found.
pub fn xdp_verdict(r: &Result<IngressRecord, FrameError>) -> (code: u32)
    ensures
        code == xdp_code(*r),
{
    match r {
        Ok(record) => match record.action {
            XdpAction::Drop => XDP_DROP,
            XdpAction::Pass => XDP_PASS,
        },
        Err(_) => XDP_ABORTED,
    }
}

/// The verdict number for what the egress hook found.
pub fn tc_verdict(r: &Result<EgressRecord, FrameError>) -> (code: i32)
    ensures
        code == tc_code(*r),
{
    match r {
        Ok(record) => match record.action {
            TcAction::Shot => TC_ACT_SHOT,
            TcAction::Pipe => TC_ACT_PIPE,
        },
        Err(_) => TC_ACT_SHOT,
    }
}

/// Classifies one received frame at time `now`.
///
/// A frame that is neither IPv4 nor IPv6 passes unread. A frame from a
/// blocked sender is dropped. Any other frame passes and is counted against
/// its sender, which may block the sender for the frames that follow. A
/// frame that cannot be read changes nothing.
pub fn try_xdp_filter(store: &mut Store, frame: &[u8], now: u64) -> (r: Result<
    IngressRecord,
    FrameError,
>)
    requires
        old(store).wf(),
    ensures
        final(store).wf(),
        r == ingress(old(store)@, frame@),
        final(store)@ == after_ingress(old(store)@, frame@, now),
{
    let packet = parse_inbound(frame)?;
    let denied = match packet.address() {
        Some(source) => store.blocks(source),
        None => false,
    };
    let plan = plan_ingress(packet, denied);
    match plan.count {
        Some(source) => store.check_rate_limit(source, now),
        None => {},
    }
    Ok(plan.record)
}

/// The ingress hook: classifies one received frame at time `now` and hands
/// back the verdict number.
pub fn xdp_filter(store: &mut Store, frame: &[u8], now: u64) -> (code: u32)
    requires
        old(store).wf(),
    ensures
        final(store).wf(),
        code == xdp_code(ingress(old(store)@, frame@)),
        final(store)@ == after_ingress(old(store)@, frame@, now),
{
    let found = try_xdp_filter(store, frame, now);
    xdp_verdict(&found)
}

/// Classifies one frame about to be sent. The store is only read.
pub fn try_tc_egress(store: &Store, frame: &[u8]) -> (r: Result<EgressRecord, FrameError>)
    requires
        store.wf(),
    ensures
        r == egress(store@, frame@),
{
    let packet = parse_outbound(frame)?;
    let denied = match packet.address() {
        Some(destination) => store.blocks(destination),
        None => false,
    };
    Ok(plan_egress(packet, denied))
}

/// The egress hook: classifies one frame about to be sent and hands back the
/// verdict number.
pub fn tc_egress(store: &Store, frame: &[u8]) -> (code: i32)
    requires
        store.wf(),
    ensures
        code == tc_code(egress(store@, frame@)),
{
    let found = try_tc_egress(store, frame);
    tc_verdict(&found)
}

/// The sender of a received frame, as far as the link and network headers
/// give it, whatever the transport part holds.
pub open spec fn sender(f: Seq<u8>) -> Option<Address> {
    if f.len() < ETH_HDR_LEN {
        None
    } else {
        match ether_kind(field16(f, ETHER_TYPE_AT as int)) {
            EtherKind::Other => None,
            EtherKind::Ipv4 => if f.len() < ETH_HDR_LEN + IPV4_HDR_LEN {
                None
            } else {
                Some(Address::V4(field(f, ETH_HDR_LEN + IPV4_SRC_AT, 4) as u32))
            },
            EtherKind::Ipv6 => if f.len() < ETH_HDR_LEN + IPV6_HDR_LEN {
                None
            } else {
                Some(Address::V6(field(f, ETH_HDR_LEN + IPV6_SRC_AT, 16) as u128))
            },
        }
    }
}

/// Whether the deny table of the family of `address` can still take it.
pub open spec fn deny_has_room(s: StoreView, address: Address) -> bool {
    match address {
        Address::V4(ip) => has_room(s.v4.deny, s.v4.deny_max, ip),
        Address::V6(ip) => has_room(s.v6.deny, s.v6.deny_max, ip),
    }
}

/// A readable frame from a sender that is not blocked passes, whatever the
/// sender's counter says. The frame is counted, and the sender is blocked
/// afterwards exactly if this frame took its count within the window over
/// the threshold and the deny table had room: the frame that trips the limit
/// is the last one to pass.
pub proof fn lemma_unlisted_sender_passes(s: StoreView, f: Seq<u8>, now: u64)
    requires
        inbound(f) is Ok,
        inbound(f).unwrap() is From,
        !s.denies(inbound(f).unwrap()->source),
    ensures
        xdp_code(ingress(s, f)) == XDP_PASS,
        after_ingress(s, f, now) == s.observed(inbound(f).unwrap()->source, now),
        after_ingress(s, f, now).denies(inbound(f).unwrap()->source) <==> (blocked_by(
            s.counter(inbound(f).unwrap()->source),
            now,
            s.policy,
        ) && deny_has_room(s, inbound(f).unwrap()->source)),
{
}

/// Whether the tracker table of the family of `address` can still take it.
pub open spec fn tracker_has_room(s: StoreView, address: Address) -> bool {
    match address {
        Address::V4(ip) => has_room(s.v4.track.dom(), s.v4.track_max, ip),
        Address::V6(ip) => has_room(s.v6.track.dom(), s.v6.track_max, ip),
    }
}

/// A burst inside one window: a sender that is neither blocked nor tracked
/// sends packets at `times`, all of them within one window of the first,
/// while both tables of its family have room for it. As long as the packets
/// are no more than the threshold, each is counted and the deny tables stay
/// as they were. The packet that takes the count to one above the threshold
/// blocks the sender, and is itself still let through: before it the sender
/// was not blocked.
///
/// The threshold is taken to be at least one, since a sender's first packet
/// never blocks it, and below the largest count, which no count exceeds.
pub proof fn lemma_burst_blocks_after_threshold(s: StoreView, source: Address, times: Seq<u64>)
    requires
        !s.denies(source),
        s.counter(source) is None,
        tracker_has_room(s, source),
        deny_has_room(s, source),
        1 <= s.policy.threshold < u32::MAX,
        1 <= times.len() <= s.policy.threshold + 1,
        forall|i: int|
            0 <= i < times.len() ==> times[0] <= #[trigger] times[i] && times[i] - times[0]
                < s.policy.window,
    ensures
        after_packets(s, source, times).counter(source) == Some(
            RateLimit { last_update: times[0], packet_count: times.len() as u32 },
        ),
        after_packets(s, source, times).denies(source) <==> times.len() > s.policy.threshold,
        !after_packets(s, source, times.drop_last()).denies(source),
        times.len() <= s.policy.threshold ==> after_packets(s, source, times).v4.deny
            == s.v4.deny && after_packets(s, source, times).v6.deny == s.v6.deny,
        after_packets(s, source, times).policy == s.policy,
        after_packets(s, source, times).v4.deny_max == s.v4.deny_max,
        after_packets(s, source, times).v6.deny_max == s.v6.deny_max,
        after_packets(s, source, times).v4.track_max == s.v4.track_max,
        after_packets(s, source, times).v6.track_max == s.v6.track_max,
    decreases times.len(),
{
    let before = times.drop_last();
    if times.len() == 1 {
        assert(after_packets(s, source, before) == s);
        assert(times.last() == times[0]);
    } else {
        assert(before[0] == times[0]);
        assert forall|i: int| 0 <= i < before.len() implies before[0] <= #[trigger] before[i]
            && before[i] - before[0] < s.policy.window by {
            assert(before[i] == times[i]);
        }
        lemma_burst_blocks_after_threshold(s, source, before);
        assert(times.last() == times[times.len() - 1]);
    }
}

/// A frame from a blocked sender never passes, whatever the sender's counter
/// says and whatever else the frame holds, and it leaves the store as it
/// was. Where the frame can be read in full, the verdict is a drop.
pub proof fn lemma_listed_sender_drops(s: StoreView, f: Seq<u8>, now: u64)
    requires
        sender(f) is Some,
        s.denies(sender(f).unwrap()),
    ensures
        xdp_code(ingress(s, f)) != XDP_PASS,
        inbound(f) is Ok ==> xdp_code(ingress(s, f)) == XDP_DROP,
        after_ingress(s, f, now) == s,
{
}

/// A frame to a blocked destination is never sent on, whatever its source.
pub proof fn lemma_listed_destination_shot(s: StoreView, f: Seq<u8>)
    requires
        outbound(f) is Ok,
        outbound(f).unwrap() is To,
        s.denies(outbound(f).unwrap()->destination),
    ensures
        tc_code(egress(s, f)) == TC_ACT_SHOT,
{
}

/// A frame with an Ethernet header whose payload is neither IPv4 nor IPv6
/// passes both hooks and leaves the store as it was.
pub proof fn lemma_unmatched_frame_passes(s: StoreView, f: Seq<u8>, now: u64)
    requires
        f.len() >= ETH_HDR_LEN,
        ether_kind(field16(f, ETHER_TYPE_AT as int)) == EtherKind::Other,
    ensures
        xdp_code(ingress(s, f)) == XDP_PASS,
        tc_code(egress(s, f)) == TC_ACT_PIPE,
        after_ingress(s, f, now) == s,
{
}

/// A packet that arrives after the sender's window has run out reopens the
/// window with a count of one and blocks nobody.
pub proof fn lemma_elapsed_window_resets(s: StoreView, address: Address, now: u64)
    requires
        s.counter(address) is Some,
        !s.counter(address).unwrap().in_window(now, s.policy.window),
    ensures
        s.observed(address, now).counter(address) == Some(
            RateLimit { last_update: now, packet_count: 1 },
        ),
        s.observed(address, now).v4.deny == s.v4.deny,
        s.observed(address, now).v6.deny == s.v6.deny,
{
}

/// The ingress hook never unblocks anyone: an address that is blocked stays
/// blocked whatever frame arrives and however much time has passed.
pub proof fn lemma_ingress_keeps_blocks(s: StoreView, f: Seq<u8>, now: u64, address: Address)
    requires
        s.denies(address),
    ensures
        after_ingress(s, f, now).denies(address),
{
}

} // verus!
