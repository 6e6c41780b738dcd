//! The peer registry: the table from assigned address to peer, built once
//! from the configured peer list, and the events that change its records.

use vstd::prelude::*;
use crate::address::{destination_to_ip, NetworkPrefix};
use crate::identity::{hex_bytes, is_hex_identifier, DestinationId, Identifier, LinkId};
use crate::lifecycle::{Peer, PeerEvent};

verus! {

/// Why a peer cannot be added to a running registry.
#[derive(Clone, Copy, Debug, PartialEq, Eq)]
pub enum PeerAddError {
    /// The peer is registered already.
    AlreadyExists,
    /// The peer maps to the address of the registered peer named here.
    IpConflicts(DestinationId, u32),
}

/// Why a peer cannot be removed from a running registry.
#[derive(Clone, Copy, Debug, PartialEq, Eq)]
pub enum PeerRemoveError {
    /// The peer is not registered.
    NotFound,
}

/// The endpoint of this process: its identifier and its derived address.
#[derive(Clone, Copy, Debug, PartialEq, Eq)]
pub struct LocalEndpoint {
    pub dest: DestinationId,
    pub ip: u32,
}

/// One row of the registry.
#[derive(Clone, Copy, Debug, PartialEq, Eq)]
pub struct PeerEntry {
    pub ip: u32,
    pub peer: Peer,
}

/// Why a configuration is refused. `index` is the place of the refused peer
/// in the configured list.
#[derive(Clone, Debug, PartialEq, Eq)]
pub enum ConfigError {
    /// The text of the peer is no identifier.
    MalformedPeer { index: usize, text: String },
    /// The peer maps to the address of the local endpoint.
    LocalConflict { index: usize, peer: DestinationId, local: DestinationId, ip: u32 },
    /// The peer maps to the address of a peer earlier in the list.
    PeerConflict {
        index: usize,
        existing_index: usize,
        existing: DestinationId,
        peer: DestinationId,
        ip: u32,
    },
}

/// The address that a prefix assigns to the identifier that a text spells.
pub open spec fn text_ip(prefix: NetworkPrefix, text: String) -> u32 {
    prefix.address_of(hex_bytes(text@))
}

/// True when peer `i` of a list cannot be taken: its text is no identifier,
/// or it maps to the local address, or to the address of an earlier peer.
pub open spec fn peer_rejected(
    local_ip: u32,
    prefix: NetworkPrefix,
    peers: Seq<String>,
    i: int,
) -> bool {
    ||| !is_hex_identifier(peers[i]@)
    ||| text_ip(prefix, peers[i]) == local_ip
    ||| exists|j: int| 0 <= j < i && text_ip(prefix, #[trigger] peers[j]) == text_ip(prefix, peers[i])
}

/// True when an entry is the fresh record of the peer that a text spells.
pub open spec fn is_fresh_entry(entry: PeerEntry, prefix: NetworkPrefix, text: String) -> bool {
    &&& entry.ip == text_ip(prefix, text)
    &&& entry.peer.dest@ == hex_bytes(text@)
    &&& entry.peer.link_id is None
    &&& !entry.peer.link_active
}

impl ConfigError {
    /// The place in the list of the peer that was refused.
    pub open spec fn index_spec(self) -> int {
        match self {
            ConfigError::MalformedPeer { index, .. } => index as int,
            ConfigError::LocalConflict { index, .. } => index as int,
            ConfigError::PeerConflict { index, .. } => index as int,
        }
    }

    /// True when the error says truly why its peer of the list is refused:
    /// the kind, the text or the identifiers involved, and the shared address.
    pub open spec fn describes(
        self,
        local: LocalEndpoint,
        prefix: NetworkPrefix,
        peers: Seq<String>,
    ) -> bool {
        match self {
            ConfigError::MalformedPeer { index, text } => {
                &&& index < peers.len()
                &&& text@ == peers[index as int]@
                &&& !is_hex_identifier(peers[index as int]@)
            },
            ConfigError::LocalConflict { index, peer, local: named, ip } => {
                &&& index < peers.len()
                &&& is_hex_identifier(peers[index as int]@)
                &&& peer@ == hex_bytes(peers[index as int]@)
                &&& named == local.dest
                &&& ip == local.ip
                &&& ip == text_ip(prefix, peers[index as int])
            },
            ConfigError::PeerConflict { index, existing_index, existing, peer, ip } => {
                &&& index < peers.len()
                &&& existing_index < index
                &&& is_hex_identifier(peers[index as int]@)
                &&& is_hex_identifier(peers[existing_index as int]@)
                &&& peer@ == hex_bytes(peers[index as int]@)
                &&& existing@ == hex_bytes(peers[existing_index as int]@)
                &&& ip != local.ip
                &&& ip == text_ip(prefix, peers[index as int])
                &&& ip == text_ip(prefix, peers[existing_index as int])
            },
        }
    }

    /// True when the error is the one that refuses a configuration: it
    /// describes the first peer of the list that cannot be taken.
    pub open spec fn is_refusal_of(
        self,
        local: DestinationId,
        prefix: NetworkPrefix,
        peers: Seq<String>,
    ) -> bool {
        &&& self.describes(
            (LocalEndpoint { dest: local, ip: prefix.address_of(local@) }),
            prefix,
            peers,
        )
        &&& forall|k: int|
            0 <= k < self.index_spec() ==> !#[trigger] peer_rejected(
                prefix.address_of(local@),
                prefix,
                peers,
                k,
            )
    }

    /// The place in the list of the peer that was refused.
    pub fn index(&self) -> (i: usize)
        ensures
            i == self.index_spec(),
    {
        match self {
            ConfigError::MalformedPeer { index, .. } => *index,
            ConfigError::LocalConflict { index, .. } => *index,
            ConfigError::PeerConflict { index, .. } => *index,
        }
    }
}

impl LocalEndpoint {
    /// The local endpoint of `dest` inside `prefix`.
    pub fn new(dest: DestinationId, prefix: NetworkPrefix) -> (local: LocalEndpoint)
        ensures
            local.dest == dest,
            local.ip == prefix.address_of(dest@),
    {
        LocalEndpoint { dest, ip: destination_to_ip(dest, prefix) }
    }
}

/// The table of configured peers, in the order of the configured list. Its
/// set of addresses is fixed once it is built; only the link fields change.
pub struct PeerRegistry {
    local: LocalEndpoint,
    prefix: NetworkPrefix,
    entries: Vec<PeerEntry>,
}

impl View for PeerRegistry {
    type V = Seq<PeerEntry>;

    closed spec fn view(&self) -> Seq<PeerEntry> {
        self.entries@
    }
}

impl PeerRegistry {
    /// The local endpoint that the registry was built for.
    pub closed spec fn local_spec(&self) -> LocalEndpoint {
        self.local
    }

    /// The prefix that the registry was built for.
    pub closed spec fn prefix_spec(&self) -> NetworkPrefix {
        self.prefix
    }

    /// Every address is the derived address of its peer, differs from the
    /// local address and from that of every other peer; no peer without a
    /// link is active.
    pub open spec fn wf(&self) -> bool {
        &&& self.prefix_spec().wf()
        &&& self.local_spec().ip == self.prefix_spec().address_of(self.local_spec().dest@)
        &&& forall|i: int|
            0 <= i < self@.len() ==> {
                &&& (#[trigger] self@[i]).ip == self.prefix_spec().address_of(self@[i].peer.dest@)
                &&& self@[i].ip != self.local_spec().ip
                &&& self@[i].peer.wf()
            }
        &&& forall|i: int, j: int|
            0 <= i < j < self@.len() ==> (#[trigger] self@[i]).ip != (#[trigger] self@[j]).ip
    }

    /// True when the registry is the one of a configuration: every peer of
    /// the list can be taken, and the rows are their fresh records, in list
    /// order.
    pub open spec fn is_built_from(
        &self,
        local: DestinationId,
        prefix: NetworkPrefix,
        peers: Seq<String>,
    ) -> bool {
        &&& self.wf()
        &&& self.local_spec().dest == local
        &&& self.prefix_spec() == prefix
        &&& self@.len() == peers.len()
        &&& forall|i: int|
            0 <= i < peers.len() ==> !#[trigger] peer_rejected(
                prefix.address_of(local@),
                prefix,
                peers,
                i,
            )
        &&& forall|i: int|
            0 <= i < peers.len() ==> is_fresh_entry(#[trigger] self@[i], prefix, peers[i])
    }

    /// True when some peer has address `ip`.
    pub open spec fn has_ip(&self, ip: u32) -> bool {
        exists|i: int| 0 <= i < self@.len() && (#[trigger] self@[i]).ip == ip
    }

    /// The peer with address `ip`, if there is one.
    pub open spec fn record(&self, ip: u32) -> Option<Peer> {
        if self.has_ip(ip) {
            Some(self@[choose|i: int| 0 <= i < self@.len() && (#[trigger] self@[i]).ip == ip].peer)
        } else {
            None
        }
    }

    /// True when an event concerns some peer.
    pub open spec fn concerns_some(&self, event: PeerEvent) -> bool {
        exists|i: int| 0 <= i < self@.len() && (#[trigger] self@[i]).peer.concerns(event)
    }

    /// True when `next` holds the peers of `self`, each after `event`, under
    /// the same addresses and in the same order.
    pub open spec fn stepped(&self, event: PeerEvent, next: &PeerRegistry) -> bool {
        &&& next.local_spec() == self.local_spec()
        &&& next.prefix_spec() == self.prefix_spec()
        &&& next@.len() == self@.len()
        &&& forall|i: int|
            0 <= i < self@.len() ==> {
                &&& (#[trigger] next@[i]).ip == self@[i].ip
                &&& next@[i].peer == self@[i].peer.after(event)
            }
    }

    /// The local endpoint.
    pub fn local(&self) -> (l: LocalEndpoint)
        ensures
            l == self.local_spec(),
    {
        self.local
    }

    /// The network prefix.
    pub fn prefix(&self) -> (p: NetworkPrefix)
        ensures
            p == self.prefix_spec(),
    {
        self.prefix
    }

    /// The number of peers.
    pub fn len(&self) -> (n: usize)
        ensures
            n == self@.len(),
    {
        self.entries.len()
    }

    /// The row at place `i`.
    pub fn entry(&self, i: usize) -> (e: PeerEntry)
        requires
            i < self@.len(),
        ensures
            e == self@[i as int],
    {
        self.entries[i]
    }

    /// The place of the peer with address `ip`, if there is one.
    pub fn position(&self, ip: u32) -> (r: Option<usize>)
        ensures
            match r {
                Some(i) => i < self@.len() && self@[i as int].ip == ip && forall|k: int|
                    0 <= k < i ==> (#[trigger] self@[k]).ip != ip,
                None => !self.has_ip(ip),
            },
    {
        let mut i: usize = 0;
        while i < self.entries.len()
            invariant
                i <= self.entries.len(),
                forall|k: int| 0 <= k < i ==> (#[trigger] self@[k]).ip != ip,
            decreases self.entries.len() - i,
        {
            if self.entries[i].ip == ip {
                return Some(i);
            }
            i += 1;
        }
        None
    }

    /// A snapshot of the peer with address `ip`; `None` where no peer has it.
    pub fn lookup(&self, ip: u32) -> (r: Option<Peer>)
        requires
            self.wf(),
        ensures
            r == self.record(ip),
            r is Some <==> self.has_ip(ip),
    {
        match self.position(ip) {
            Some(i) => {
                proof {
                    let k = choose|k: int| 0 <= k < self@.len() && (#[trigger] self@[k]).ip == ip;
                    assert(self@[i as int].ip == self@[k].ip);
                    assert(k == i);
                }
                Some(self.entries[i].peer)
            },
            None => None,
        }
    }

    /// Whether an announce of `dest` asks for a new link: some peer has this
    /// identifier and no link.
    pub fn needs_link(&self, dest: &DestinationId) -> (r: bool)
        ensures
            r == exists|i: int|
                0 <= i < self@.len() && (#[trigger] self@[i]).peer.wants_link_spec(*dest),
    {
        let mut i: usize = 0;
        while i < self.entries.len()
            invariant
                i <= self.entries.len(),
                forall|k: int| 0 <= k < i ==> !(#[trigger] self@[k]).peer.wants_link_spec(*dest),
            decreases self.entries.len() - i,
        {
            if self.entries[i].peer.wants_link(dest) {
                return true;
            }
            i += 1;
        }
        false
    }

    /// Records that link `link` was created upon an announce of `dest`: the
    /// peer with this identifier, if it had no link, is pending on `link`.
    pub fn link_created(&mut self, dest: &DestinationId, link: LinkId) -> (changed: bool)
        requires
            old(self).wf(),
        ensures
            final(self).wf(),
            old(self).stepped((PeerEvent::LinkCreated { dest: *dest, link }), final(self)),
            changed == old(self).concerns_some((PeerEvent::LinkCreated { dest: *dest, link })),
    {
        self.apply(&PeerEvent::LinkCreated { dest: *dest, link })
    }

    /// Records that link `link` is active.
    pub fn link_activated(&mut self, link: &LinkId) -> (changed: bool)
        requires
            old(self).wf(),
        ensures
            final(self).wf(),
            old(self).stepped(PeerEvent::Activated(*link), final(self)),
            changed == old(self).concerns_some(PeerEvent::Activated(*link)),
    {
        self.apply(&PeerEvent::Activated(*link))
    }

    /// Records that link `link` is closed: its peer has no link again.
    pub fn link_closed(&mut self, link: &LinkId) -> (changed: bool)
        requires
            old(self).wf(),
        ensures
            final(self).wf(),
            old(self).stepped(PeerEvent::Closed(*link), final(self)),
            changed == old(self).concerns_some(PeerEvent::Closed(*link)),
    {
        self.apply(&PeerEvent::Closed(*link))
    }

    /// Builds the registry of a configuration. The peers are taken in list
    /// order; the first that cannot be taken refuses the whole configuration,
    /// and the error says which peer it is and why.
    pub fn build(local: DestinationId, prefix: NetworkPrefix, peers: &Vec<String>) -> (r: Result<
        PeerRegistry,
        ConfigError,
    >)
        ensures
            match r {
                Ok(reg) => reg.is_built_from(local, prefix, peers@),
                Err(e) => e.is_refusal_of(local, prefix, peers@),
            },
    {
        proof {
            use_type_invariant(prefix);
        }
        let here = LocalEndpoint::new(local, prefix);
        let mut reg = PeerRegistry { local: here, prefix, entries: Vec::new() };
        let mut i: usize = 0;
        while i < peers.len()
            invariant
                i <= peers.len(),
                reg.wf(),
                reg.local == here,
                reg.prefix == prefix,
                here.dest == local,
                here.ip == prefix.address_of(local@),
                reg@.len() == i,
                forall|k: int| 0 <= k < i ==> !#[trigger] peer_rejected(here.ip, prefix, peers@, k),
                forall|k: int| 0 <= k < i ==> is_fresh_entry(#[trigger] reg@[k], prefix, peers@[k]),
            decreases peers.len() - i,
        {
            let text = &peers[i];
            match Identifier::from_hex(text.as_str()) {
                None => {
                    return Err(ConfigError::MalformedPeer { index: i, text: text.clone() });
                },
                Some(dest) => {
                    let ip: u32 = destination_to_ip(dest, prefix);
                    if ip == here.ip {
                        return Err(
                            ConfigError::LocalConflict { index: i, peer: dest, local, ip },
                        );
                    }
                    match reg.position(ip) {
                        Some(j) => {
                            let existing = reg.entries[j].peer.dest;
                            proof {
                                assert(!peer_rejected(here.ip, prefix, peers@, j as int));
                                assert(is_fresh_entry(reg@[j as int], prefix, peers@[j as int]));
                            }
                            return Err(
                                ConfigError::PeerConflict {
                                    index: i,
                                    existing_index: j,
                                    existing,
                                    peer: dest,
                                    ip,
                                },
                            );
                        },
                        None => {
                            let ghost before = reg@;
                            reg.entries.push(PeerEntry { ip, peer: Peer::new(dest) });
                            proof {
                                assert(forall|k: int| 0 <= k < i ==> reg@[k] == before[k]);
                                assert forall|j: int| 0 <= j < i implies text_ip(
                                    prefix,
                                    #[trigger] peers@[j],
                                ) != ip by {
                                    assert(before[j].ip == text_ip(prefix, peers@[j]));
                                }
                            }
                        },
                    }
                },
            }
            i += 1;
        }
        Ok(reg)
    }

    /// Applies an event to every peer.
    pub fn apply(&mut self, event: &PeerEvent) -> (changed: bool)
        requires
            old(self).wf(),
        ensures
            final(self).wf(),
            old(self).stepped(*event, final(self)),
            changed == old(self).concerns_some(*event),
    {
        let n: usize = self.entries.len();
        let ghost before = self@;
        let mut changed: bool = false;
        let mut i: usize = 0;
        while i < n
            invariant
                i <= n,
                n == before.len(),
                self@.len() == n,
                self.local == old(self).local,
                self.prefix == old(self).prefix,
                before == old(self)@,
                forall|k: int|
                    0 <= k < i ==> {
                        &&& (#[trigger] self@[k]).ip == before[k].ip
                        &&& self@[k].peer == before[k].peer.after(*event)
                    },
                forall|k: int| i <= k < n ==> #[trigger] self@[k] == before[k],
                changed == exists|k: int| 0 <= k < i && (#[trigger] before[k]).peer.concerns(*event),
            decreases n - i,
        {
            let mut row: PeerEntry = self.entries[i];
            let hit = row.peer.apply(event);
            self.entries.set(i, row);
            if hit {
                changed = true;
            }
            i += 1;
        }
        proof {
            assert forall|k: int| 0 <= k < n implies {
                &&& (#[trigger] self@[k]).ip == self.prefix_spec().address_of(self@[k].peer.dest@)
                &&& self@[k].ip != self.local_spec().ip
                &&& self@[k].peer.wf()
            } by {
                assert(before[k].peer.wf());
                crate::lifecycle::lemma_transitions_keep_shape(before[k].peer, *event);
            }
            assert forall|a: int, b: int| 0 <= a < b < n implies (#[trigger] self@[a]).ip != (
            #[trigger] self@[b]).ip by {
                assert(before[a].ip != before[b].ip);
            }
        }
        changed
    }
}

/// No two peers of a registry have the same identifier, and none has the
/// identifier of the local endpoint.
pub proof fn lemma_identifiers_distinct(reg: &PeerRegistry, i: int, j: int)
    requires
        reg.wf(),
        0 <= i < reg@.len(),
        0 <= j < reg@.len(),
        i != j,
    ensures
        reg@[i].peer.dest@ != reg@[j].peer.dest@,
        reg@[i].peer.dest@ != reg.local_spec().dest@,
{
    if i < j {
        assert(reg@[i].ip != reg@[j].ip);
    } else {
        assert(reg@[j].ip != reg@[i].ip);
    }
}

/// An event leaves the set of addresses as it is: what `lookup` finds
/// afterwards is what it found before, after the event.
pub proof fn lemma_step_keeps_addresses(
    reg: &PeerRegistry,
    event: PeerEvent,
    next: &PeerRegistry,
    ip: u32,
)
    requires
        reg.wf(),
        next.wf(),
        reg.stepped(event, next),
    ensures
        next.has_ip(ip) == reg.has_ip(ip),
        next.record(ip) == match reg.record(ip) {
            Some(p) => Some(p.after(event)),
            None => None,
        },
{
    if reg.has_ip(ip) {
        let k = choose|k: int| 0 <= k < reg@.len() && (#[trigger] reg@[k]).ip == ip;
        assert(next@[k].ip == ip);
        let m = choose|m: int| 0 <= m < next@.len() && (#[trigger] next@[m]).ip == ip;
        assert(next@[m].ip == next@[k].ip);
        assert(m == k);
    }
    if next.has_ip(ip) {
        let m = choose|m: int| 0 <= m < next@.len() && (#[trigger] next@[m]).ip == ip;
        assert(reg@[m].ip == ip);
    }
}

/// The error that refuses a configuration is determined by the list: it
/// names the first peer that cannot be taken, and says that its text is
/// malformed if it is; else that it meets the local address if it does; else
/// which earlier peer has its address, and there is one such peer only.
pub proof fn lemma_refusal_is_determined(
    e: ConfigError,
    local: DestinationId,
    prefix: NetworkPrefix,
    peers: Seq<String>,
)
    requires
        e.is_refusal_of(local, prefix, peers),
    ensures
        0 <= e.index_spec() < peers.len(),
        peer_rejected(prefix.address_of(local@), prefix, peers, e.index_spec()),
        e is MalformedPeer <==> !is_hex_identifier(peers[e.index_spec()]@),
        e is LocalConflict <==> is_hex_identifier(peers[e.index_spec()]@) && text_ip(
            prefix,
            peers[e.index_spec()],
        ) == prefix.address_of(local@),
        e matches ConfigError::PeerConflict { index, existing_index, .. } ==> forall|j: int|
            0 <= j < index && text_ip(prefix, #[trigger] peers[j]) == text_ip(
                prefix,
                peers[index as int],
            ) ==> j == existing_index,
{
    let local_ip = prefix.address_of(local@);
    match e {
        ConfigError::PeerConflict { index, existing_index, .. } => {
            assert(text_ip(prefix, peers[existing_index as int]) == text_ip(
                prefix,
                peers[index as int],
            ));
            assert forall|j: int|
                0 <= j < index && text_ip(prefix, #[trigger] peers[j]) == text_ip(
                    prefix,
                    peers[index as int],
                ) implies j == existing_index by {
                if j < existing_index {
                    assert(!peer_rejected(local_ip, prefix, peers, existing_index as int));
                } else if existing_index < j {
                    assert(!peer_rejected(local_ip, prefix, peers, j));
                }
            }
        },
        _ => {},
    }
}

/// A configuration is accepted only if no peer of its list is rejected, so
/// none is both accepted and refused.
pub proof fn lemma_built_excludes_refusal(
    reg: &PeerRegistry,
    e: ConfigError,
    local: DestinationId,
    prefix: NetworkPrefix,
    peers: Seq<String>,
)
    requires
        reg.is_built_from(local, prefix, peers),
    ensures
        !e.is_refusal_of(local, prefix, peers),
{
    if e.is_refusal_of(local, prefix, peers) {
        lemma_refusal_is_determined(e, local, prefix, peers);
        assert(!peer_rejected(prefix.address_of(local@), prefix, peers, e.index_spec()));
    }
}

/// Once the link created upon an announce is recorded, the same announce
/// asks for no further link: every peer it names has one.
pub proof fn lemma_announce_is_served_once(
    reg: &PeerRegistry,
    dest: DestinationId,
    link: LinkId,
    next: &PeerRegistry,
)
    requires
        reg.stepped((PeerEvent::LinkCreated { dest, link }), next),
    ensures
        forall|i: int|
            0 <= i < next@.len() ==> !(#[trigger] next@[i]).peer.wants_link_spec(dest),
{
    assert forall|i: int| 0 <= i < next@.len() implies !(#[trigger] next@[i]).peer.wants_link_spec(
        dest,
    ) by {
        assert(next@[i].peer == reg@[i].peer.after((PeerEvent::LinkCreated { dest, link })));
    }
}

/// Once a link is reported closed, no peer has it, and the peer that had it
/// asks for a link on its next announce.
pub proof fn lemma_closed_link_is_forgotten(reg: &PeerRegistry, link: LinkId, next: &PeerRegistry)
    requires
        reg.stepped(PeerEvent::Closed(link), next),
    ensures
        forall|i: int| 0 <= i < next@.len() ==> (#[trigger] next@[i]).peer.link_id != Some(link),
        forall|i: int|
            0 <= i < reg@.len() && (#[trigger] reg@[i]).peer.link_id == Some(link)
                ==> next@[i].peer.wants_link_spec(reg@[i].peer.dest),
{
    assert forall|i: int| 0 <= i < next@.len() implies (#[trigger] next@[i]).peer.link_id != Some(
        link,
    ) by {
        assert(next@[i].peer == reg@[i].peer.after(PeerEvent::Closed(link)));
    }
    assert forall|i: int|
        0 <= i < reg@.len() && (#[trigger] reg@[i]).peer.link_id == Some(
            link,
        ) implies next@[i].peer.wants_link_spec(reg@[i].peer.dest) by {
        assert(next@[i].peer == reg@[i].peer.after(PeerEvent::Closed(link)));
    }
}

} // verus!
