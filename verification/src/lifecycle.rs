//! The link state of one peer and the transitions that announces and link
//! events cause.

use vstd::prelude::*;
use crate::identity::{DestinationId, LinkId};

verus! {

/// Where a peer stands in the life of its link.
#[derive(Clone, Copy, Debug, PartialEq, Eq, Structural)]
pub enum LinkState {
    /// No link exists; the next matching announce creates one.
    NoLink,
    /// A link was requested and has not been confirmed.
    Pending,
    /// The link was confirmed.
    Active,
}

/// One configured peer: its identifier and what is known of its link.
#[derive(Clone, Copy, Debug, PartialEq, Eq)]
pub struct Peer {
    pub dest: DestinationId,
    pub link_id: Option<LinkId>,
    pub link_active: bool,
}

impl Peer {
    /// A peer without a link is not active.
    pub open spec fn wf(self) -> bool {
        self.link_id is None ==> !self.link_active
    }

    /// The state that the two link fields stand for.
    pub open spec fn state_of(self) -> LinkState {
        match self.link_id {
            None => LinkState::NoLink,
            Some(_) => if self.link_active {
                LinkState::Active
            } else {
                LinkState::Pending
            },
        }
    }

    /// True when an announce of `dest` asks for a new link to this peer: the
    /// identifier is this peer's and the peer has no link.
    pub open spec fn wants_link_spec(self, dest: DestinationId) -> bool {
        self.dest == dest && self.link_id is None
    }

    /// The peer after a link `link` was created upon an announce of `dest`.
    pub open spec fn after_link_created(self, dest: DestinationId, link: LinkId) -> Peer {
        if self.wants_link_spec(dest) {
            Peer { dest: self.dest, link_id: Some(link), link_active: false }
        } else {
            self
        }
    }

    /// The peer after link `link` was reported active.
    pub open spec fn after_activated(self, link: LinkId) -> Peer {
        if self.link_id == Some(link) {
            Peer { dest: self.dest, link_id: self.link_id, link_active: true }
        } else {
            self
        }
    }

    /// The peer after link `link` was reported closed.
    pub open spec fn after_closed(self, link: LinkId) -> Peer {
        if self.link_id == Some(link) {
            Peer { dest: self.dest, link_id: None, link_active: false }
        } else {
            self
        }
    }

    /// A peer in state `NoLink`.
    pub fn new(dest: DestinationId) -> (p: Peer)
        ensures
            p == (Peer { dest, link_id: None, link_active: false }),
            p.wf(),
            p.state_of() == LinkState::NoLink,
    {
        Peer { dest, link_id: None, link_active: false }
    }

    /// The peer's link state.
    pub fn state(&self) -> (s: LinkState)
        ensures
            s == self.state_of(),
    {
        match self.link_id {
            None => LinkState::NoLink,
            Some(_) => if self.link_active {
                LinkState::Active
            } else {
                LinkState::Pending
            },
        }
    }

    /// True exactly when the peer's link is `link`.
    pub fn has_link(&self, link: &LinkId) -> (r: bool)
        ensures
            r == (self.link_id == Some(*link)),
    {
        match &self.link_id {
            None => false,
            Some(id) => id.same(link),
        }
    }

    /// Whether an announce of `dest` asks for a new link to this peer.
    pub fn wants_link(&self, dest: &DestinationId) -> (r: bool)
        ensures
            r == self.wants_link_spec(*dest),
    {
        self.link_id.is_none() && self.dest.same(dest)
    }

    /// Records the link created upon an announce of `dest`. A peer that the
    /// announce does not name, or that has a link already, stays as it is.
    pub fn link_created(&mut self, dest: &DestinationId, link: LinkId) -> (changed: bool)
        ensures
            *final(self) == old(self).after_link_created(*dest, link),
            changed == old(self).wants_link_spec(*dest),
            old(self).wf() ==> final(self).wf(),
    {
        if self.wants_link(dest) {
            self.link_id = Some(link);
            self.link_active = false;
            true
        } else {
            false
        }
    }

    /// Marks the peer active if its link is `link`.
    pub fn activated(&mut self, link: &LinkId) -> (changed: bool)
        ensures
            *final(self) == old(self).after_activated(*link),
            changed == (old(self).link_id == Some(*link)),
            old(self).wf() ==> final(self).wf(),
    {
        if self.has_link(link) {
            self.link_active = true;
            true
        } else {
            false
        }
    }

    /// Clears the peer's link if it is `link`.
    pub fn closed(&mut self, link: &LinkId) -> (changed: bool)
        ensures
            *final(self) == old(self).after_closed(*link),
            changed == (old(self).link_id == Some(*link)),
            old(self).wf() ==> final(self).wf(),
    {
        if self.has_link(link) {
            self.link_active = false;
            self.link_id = None;
            true
        } else {
            false
        }
    }
}

/// What can happen to the link of a peer.
#[derive(Clone, Copy, Debug)]
pub enum PeerEvent {
    /// A link `link` was created upon an announce of `dest`.
    LinkCreated { dest: DestinationId, link: LinkId },
    /// Link `0` was reported active.
    Activated(LinkId),
    /// Link `0` was reported closed.
    Closed(LinkId),
}

impl Peer {
    /// The peer after an event.
    pub open spec fn after(self, event: PeerEvent) -> Peer {
        match event {
            PeerEvent::LinkCreated { dest, link } => self.after_link_created(dest, link),
            PeerEvent::Activated(link) => self.after_activated(link),
            PeerEvent::Closed(link) => self.after_closed(link),
        }
    }

    /// True when an event changes what is recorded of the peer's link.
    pub open spec fn concerns(self, event: PeerEvent) -> bool {
        match event {
            PeerEvent::LinkCreated { dest, link } => self.wants_link_spec(dest),
            PeerEvent::Activated(link) => self.link_id == Some(link),
            PeerEvent::Closed(link) => self.link_id == Some(link),
        }
    }

    /// Applies an event; the result says whether it concerned this peer.
    pub fn apply(&mut self, event: &PeerEvent) -> (changed: bool)
        ensures
            *final(self) == old(self).after(*event),
            changed == old(self).concerns(*event),
            final(self).dest == old(self).dest,
            old(self).wf() ==> final(self).wf(),
    {
        match event {
            PeerEvent::LinkCreated { dest, link } => self.link_created(dest, *link),
            PeerEvent::Activated(link) => self.activated(link),
            PeerEvent::Closed(link) => self.closed(link),
        }
    }
}

/// A peer without a link that a matching announce names gets the created
/// link and is pending.
pub proof fn lemma_announce_makes_pending(p: Peer, dest: DestinationId, link: LinkId)
    requires
        p.state_of() == LinkState::NoLink,
        p.dest == dest,
    ensures
        p.after_link_created(dest, link).state_of() == LinkState::Pending,
        p.after_link_created(dest, link).link_id == Some(link),
        p.after_link_created(dest, link).dest == p.dest,
{
}

/// A peer that has a link, pending or active, asks for no link on an
/// announce and is left as it is: no second link is created.
pub proof fn lemma_repeated_announce_is_noop(p: Peer, dest: DestinationId, link: LinkId)
    requires
        p.state_of() == LinkState::Pending || p.state_of() == LinkState::Active,
    ensures
        !p.wants_link_spec(dest),
        p.after_link_created(dest, link) == p,
{
}

/// An announce of another identifier leaves a peer as it is.
pub proof fn lemma_foreign_announce_is_noop(p: Peer, dest: DestinationId, link: LinkId)
    requires
        p.dest != dest,
    ensures
        !p.wants_link_spec(dest),
        p.after_link_created(dest, link) == p,
{
}

/// A pending peer whose link is reported active becomes active.
pub proof fn lemma_activation_makes_active(p: Peer, link: LinkId)
    requires
        p.link_id == Some(link),
    ensures
        p.after_activated(link).state_of() == LinkState::Active,
        p.after_activated(link).link_id == p.link_id,
{
}

/// A pending or active peer whose link is reported closed has no link
/// afterwards, and the next matching announce asks for a link again.
pub proof fn lemma_close_returns_to_no_link(p: Peer, link: LinkId)
    requires
        p.state_of() == LinkState::Pending || p.state_of() == LinkState::Active,
        p.link_id == Some(link),
    ensures
        p.after_closed(link).state_of() == LinkState::NoLink,
        p.after_closed(link).wf(),
        p.after_closed(link).wants_link_spec(p.dest),
{
}

/// An event for a link that is not the peer's leaves the peer as it is.
pub proof fn lemma_foreign_link_event_is_noop(p: Peer, link: LinkId)
    requires
        p.link_id != Some(link),
    ensures
        p.after_activated(link) == p,
        p.after_closed(link) == p,
{
}

/// Every transition keeps the rule that a peer without a link is not active.
pub proof fn lemma_transitions_keep_wf(p: Peer, dest: DestinationId, link: LinkId)
    requires
        p.wf(),
    ensures
        p.after_link_created(dest, link).wf(),
        p.after_activated(link).wf(),
        p.after_closed(link).wf(),
{
}

/// No event changes a peer's identifier, and every event keeps the rule
/// that a peer without a link is not active.
pub proof fn lemma_transitions_keep_shape(p: Peer, event: PeerEvent)
    ensures
        p.after(event).dest == p.dest,
        p.wf() ==> p.after(event).wf(),
{
}

} // verus!
