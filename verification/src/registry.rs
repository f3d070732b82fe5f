//! The peer slots: one holder for the current connection of each role.
//!
//! The upstream slot is filled once and never cleared. The downstream slot
//! follows a last-wins policy: every newly opened downstream connection
//! overwrites the one before it. Exclusive access during a write is what the
//! `&mut` receiver of the writing methods demands of every caller.
use vstd::prelude::*;
use crate::role::{Role, PRIMARY_ID, role_of};

verus! {

/// A downstream connection as the registry records it.
pub struct Peer<H> {
    pub identity: u32,
    pub handle: H,
}

/// What the two slots hold, as a mathematical value.
pub struct Slots<H> {
    pub upstream: Option<H>,
    pub downstream: Option<Peer<H>>,
}

impl<H> Slots<H> {
    /// Both slots empty.
    pub open spec fn empty() -> Slots<H> {
        Slots { upstream: None, downstream: None }
    }

    /// No downstream peer carries the primary identity.
    pub open spec fn wf(self) -> bool {
        self.downstream matches Some(peer) ==> peer.identity != PRIMARY_ID
    }

    /// The slots after a connection with `identity` has opened.
    ///
    /// The first primary connection fills the upstream slot, and a later one
    /// leaves it as it is. Any other connection replaces the downstream peer.
    pub open spec fn opened(self, identity: u32, handle: H) -> Slots<H> {
        if identity == PRIMARY_ID {
            if self.upstream is Some {
                self
            } else {
                Slots { upstream: Some(handle), downstream: self.downstream }
            }
        } else {
            Slots { upstream: self.upstream, downstream: Some(Peer { identity, handle }) }
        }
    }

    /// The slots after the connection with `identity` has closed: the
    /// downstream slot is emptied if that connection still occupies it.
    pub open spec fn closed(self, identity: u32) -> Slots<H> {
        if self.holds_downstream(identity) {
            Slots { upstream: self.upstream, downstream: None }
        } else {
            self
        }
    }

    /// Whether the downstream slot holds the connection with `identity`.
    pub open spec fn holds_downstream(self, identity: u32) -> bool {
        self.downstream matches Some(peer) && peer.identity == identity
    }

    /// The current peer of a role.
    pub open spec fn peer(self, role: Role) -> Option<H> {
        match role {
            Role::Upstream => self.upstream,
            Role::Downstream => match self.downstream {
                Some(peer) => Some(peer.handle),
                None => None,
            },
        }
    }

    /// The peer that a message arriving on `arrival` is sent to.
    pub open spec fn target(self, arrival: Role) -> Option<H> {
        self.peer(arrival.spec_opposite())
    }
}

/// What closing a connection meant for the registry.
#[derive(Clone, Copy, Debug, PartialEq, Eq, Structural)]
pub enum CloseOutcome {
    /// The upstream connection closed. Its slot keeps the peer; the session
    /// cannot go on.
    UpstreamLost,
    /// The closing connection was the current downstream peer; its slot is
    /// now empty.
    DownstreamCleared,
    /// The closing connection was a downstream peer that had already been
    /// replaced, or was never recorded; nothing changed.
    Stale,
}

/// The outcome of closing `identity` on the given slots.
pub open spec fn close_outcome<H>(slots: Slots<H>, identity: u32) -> CloseOutcome {
    if identity == PRIMARY_ID {
        CloseOutcome::UpstreamLost
    } else if slots.holds_downstream(identity) {
        CloseOutcome::DownstreamCleared
    } else {
        CloseOutcome::Stale
    }
}

/// The role registry: the current peer of each role.
pub struct Registry<H> {
    upstream: Option<H>,
    downstream: Option<Peer<H>>,
}

impl<H> View for Registry<H> {
    type V = Slots<H>;

    closed spec fn view(&self) -> Slots<H> {
        Slots { upstream: self.upstream, downstream: self.downstream }
    }
}

impl<H> Registry<H> {
    #[verifier::type_invariant]
    spec fn downstream_is_not_primary(self) -> bool {
        self.downstream matches Some(peer) ==> peer.identity != PRIMARY_ID
    }

    /// A registry with no peers.
    pub fn new() -> (registry: Registry<H>)
        ensures
            registry@ == Slots::<H>::empty(),
            registry@.wf(),
    {
        Registry { upstream: None, downstream: None }
    }

    /// Records a newly opened connection and says which role it plays.
    pub fn assign_role(&mut self, identity: u32, handle: H) -> (role: Role)
        ensures
            role == role_of(identity),
            final(self)@ == old(self)@.opened(identity, handle),
            final(self)@.wf(),
    {
        proof {
            use_type_invariant(&*self);
        }
        if identity == PRIMARY_ID {
            if self.upstream.is_none() {
                self.upstream = Some(handle);
            }
            Role::Upstream
        } else {
            self.downstream = Some(Peer { identity, handle });
            Role::Downstream
        }
    }

    /// The current peer of a role, if there is one.
    pub fn peer_for(&self, role: Role) -> (peer: Option<&H>)
        ensures
            match peer {
                Some(handle) => self@.peer(role) == Some(*handle),
                None => self@.peer(role) is None,
            },
            self@.wf(),
    {
        proof {
            use_type_invariant(self);
        }
        match role {
            Role::Upstream => self.upstream.as_ref(),
            Role::Downstream => match &self.downstream {
                Some(peer) => Some(&peer.handle),
                None => None,
            },
        }
    }

    /// The identity of the current downstream peer, if there is one.
    pub fn downstream_identity(&self) -> (identity: Option<u32>)
        ensures
            match identity {
                Some(id) => self@.holds_downstream(id),
                None => self@.downstream is None,
            },
    {
        match &self.downstream {
            Some(peer) => Some(peer.identity),
            None => None,
        }
    }

    /// Takes note that the connection with `identity` has closed.
    pub fn close(&mut self, identity: u32) -> (outcome: CloseOutcome)
        ensures
            outcome == close_outcome(old(self)@, identity),
            final(self)@ == old(self)@.closed(identity),
            final(self)@.wf(),
    {
        proof {
            use_type_invariant(&*self);
        }
        if identity == PRIMARY_ID {
            return CloseOutcome::UpstreamLost;
        }
        let occupied = match &self.downstream {
            Some(peer) => peer.identity == identity,
            None => false,
        };
        if occupied {
            self.downstream = None;
            CloseOutcome::DownstreamCleared
        } else {
            CloseOutcome::Stale
        }
    }
}

} // verus!
