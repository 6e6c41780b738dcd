//! The packet router: where a packet read from the tunnel device goes, and
//! which link events reach the device or the registry.

use vstd::prelude::*;
use crate::identity::{DestinationId, LinkId};
use crate::lifecycle::PeerEvent;
use crate::registry::PeerRegistry;

verus! {

/// The destination address that `etherparse` reads from the IP header at the
/// start of a packet: 4 bytes for IPv4, 16 for IPv6, `None` where it finds no
/// valid IPv4 or IPv6 header.
pub uninterp spec fn ip_destination_bytes(packet: Seq<u8>) -> Option<Seq<u8>>;

/// Why a packet from the device is not forwarded.
#[derive(Clone, Copy, Debug, PartialEq, Eq, Structural)]
pub enum DropReason {
    /// The packet has no readable IP header.
    Unparsed,
    /// No peer has the destination address.
    Unregistered,
    /// The peer is known and has no link yet.
    NoLink,
}

/// What to do with a packet from the device.
#[derive(Clone, Copy, Debug, PartialEq, Eq)]
pub enum Route {
    /// Hand the packet, unchanged, to link `link` of peer `dest`.
    Forward { dest: DestinationId, link: LinkId },
    /// Drop the packet.
    Drop(DropReason),
}

/// What a link reports.
#[derive(Clone, Debug, PartialEq, Eq)]
pub enum LinkEvent {
    /// The link is confirmed.
    Activated,
    /// Bytes arrived on the link.
    Data(Vec<u8>),
    /// The link is gone.
    Closed,
}

/// A link event with the link it comes from and the local destination it is
/// scoped to.
#[derive(Clone, Debug, PartialEq, Eq)]
pub struct LinkEventData {
    pub id: LinkId,
    pub address_hash: DestinationId,
    pub event: LinkEvent,
}

/// Four bytes read as a big-endian 32-bit number.
pub open spec fn be32(b: Seq<u8>) -> u32
    recommends
        b.len() == 4,
{
    (b[0] as u32) << 24 | (b[1] as u32) << 16 | (b[2] as u32) << 8 | (b[3] as u32)
}

/// The route of a packet whose destination address bytes are `parsed`.
/// Only an IPv4 address can be registered; a packet goes out only to a
/// registered peer that has a link.
pub open spec fn route_for(reg: &PeerRegistry, parsed: Option<Seq<u8>>) -> Route {
    match parsed {
        None => Route::Drop(DropReason::Unparsed),
        Some(b) => if b.len() != 4 {
            Route::Drop(DropReason::Unregistered)
        } else {
            match reg.record(be32(b)) {
                None => Route::Drop(DropReason::Unregistered),
                Some(p) => match p.link_id {
                    None => Route::Drop(DropReason::NoLink),
                    Some(link) => Route::Forward { dest: p.dest, link },
                },
            }
        },
    }
}

/// The view of an optional byte vector.
pub open spec fn bytes_view(parsed: Option<Vec<u8>>) -> Option<Seq<u8>> {
    match parsed {
        None => None,
        Some(v) => Some(v@),
    }
}

/// Runs `etherparse::IpHeaders::from_slice` on a packet and hands out the
/// `destination` field of the IPv4 or IPv6 header it finds, `None` where it
/// reports an error. Which packets parse, and to what, is left to the crate:
/// the contract only says that the answer depends on the bytes alone.
#[verifier::external_body]
fn parse_ip_destination(packet: &[u8]) -> (r: Option<Vec<u8>>)
    ensures
        bytes_view(r) == ip_destination_bytes(packet@),
{
    match etherparse::IpHeaders::from_slice(packet) {
        Ok((etherparse::IpHeaders::Ipv4(header, _), _)) => Some(header.destination.to_vec()),
        Ok((etherparse::IpHeaders::Ipv6(header, _), _)) => Some(header.destination.to_vec()),
        Err(_) => None,
    }
}

/// The route of a packet, given the destination address bytes read from its
/// header (`None` where the header could not be read).
pub fn route_parsed(reg: &PeerRegistry, parsed: &Option<Vec<u8>>) -> (r: Route)
    requires
        reg.wf(),
    ensures
        r == route_for(reg, bytes_view(*parsed)),
{
    match parsed {
        None => Route::Drop(DropReason::Unparsed),
        Some(b) => {
            if b.len() != 4 {
                return Route::Drop(DropReason::Unregistered);
            }
            let b0: u32 = b[0] as u32;
            let b1: u32 = b[1] as u32;
            let b2: u32 = b[2] as u32;
            let b3: u32 = b[3] as u32;
            let ip: u32 = b0 << 24 | b1 << 16 | b2 << 8 | b3;
            match reg.lookup(ip) {
                None => Route::Drop(DropReason::Unregistered),
                Some(p) => match p.link_id {
                    None => Route::Drop(DropReason::NoLink),
                    Some(link) => Route::Forward { dest: p.dest, link },
                },
            }
        },
    }
}

/// The route of a packet read from the device. The registry is only read:
/// traffic creates no link.
pub fn route_packet(reg: &PeerRegistry, packet: &[u8]) -> (r: Route)
    requires
        reg.wf(),
    ensures
        r == route_for(reg, ip_destination_bytes(packet@)),
{
    let parsed = parse_ip_destination(packet);
    route_parsed(reg, &parsed)
}

/// True when a link event is scoped to the local endpoint of a registry.
pub open spec fn is_local_event(reg: &PeerRegistry, event: &LinkEventData) -> bool {
    event.address_hash == reg.local_spec().dest
}

/// Handles one link event. An event that is not scoped to the local endpoint
/// changes nothing and yields nothing. Of the others, `Data` yields its
/// payload, to be written to the device as it is; `Activated` and `Closed`
/// change the record of the peer that has the link.
pub fn handle_link_event<'a>(reg: &mut PeerRegistry, event: &'a LinkEventData) -> (r: Option<
    &'a Vec<u8>,
>)
    requires
        old(reg).wf(),
    ensures
        final(reg).wf(),
        !is_local_event(old(reg), event) ==> r is None && *final(reg) == *old(reg),
        is_local_event(old(reg), event) ==> match event.event {
            LinkEvent::Data(payload) => r == Some(&payload) && *final(reg) == *old(reg),
            LinkEvent::Activated => r is None && old(reg).stepped(
                PeerEvent::Activated(event.id),
                final(reg),
            ),
            LinkEvent::Closed => r is None && old(reg).stepped(
                PeerEvent::Closed(event.id),
                final(reg),
            ),
        },
{
    if !event.address_hash.same(&reg.local().dest) {
        return None;
    }
    match &event.event {
        LinkEvent::Data(payload) => Some(payload),
        LinkEvent::Activated => {
            reg.link_activated(&event.id);
            None
        },
        LinkEvent::Closed => {
            reg.link_closed(&event.id);
            None
        },
    }
}

/// A packet to an address that no peer has is dropped.
pub proof fn lemma_unregistered_is_dropped(reg: &PeerRegistry, addr: Seq<u8>)
    requires
        reg.wf(),
        addr.len() == 4,
        !reg.has_ip(be32(addr)),
    ensures
        route_for(reg, Some(addr)) == Route::Drop(DropReason::Unregistered),
{
}

/// A packet to a registered peer without a link is dropped.
pub proof fn lemma_linkless_is_dropped(reg: &PeerRegistry, addr: Seq<u8>, i: int)
    requires
        reg.wf(),
        addr.len() == 4,
        0 <= i < reg@.len(),
        reg@[i].ip == be32(addr),
        reg@[i].peer.link_id is None,
    ensures
        route_for(reg, Some(addr)) == Route::Drop(DropReason::NoLink),
{
    let k = choose|k: int| 0 <= k < reg@.len() && (#[trigger] reg@[k]).ip == be32(addr);
    assert(reg@[k].ip == reg@[i].ip);
    assert(k == i);
}

/// A packet to a registered peer with a link goes to that link.
pub proof fn lemma_linked_is_forwarded(reg: &PeerRegistry, addr: Seq<u8>, i: int, link: LinkId)
    requires
        reg.wf(),
        addr.len() == 4,
        0 <= i < reg@.len(),
        reg@[i].ip == be32(addr),
        reg@[i].peer.link_id == Some(link),
    ensures
        route_for(reg, Some(addr)) == (Route::Forward { dest: reg@[i].peer.dest, link }),
{
    let k = choose|k: int| 0 <= k < reg@.len() && (#[trigger] reg@[k]).ip == be32(addr);
    assert(reg@[k].ip == reg@[i].ip);
    assert(k == i);
}

} // verus!
