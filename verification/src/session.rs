//! The life of one connection: opening, active, closed.
use vstd::prelude::*;
use crate::registry::{close_outcome, CloseOutcome, Registry};
use crate::relay::{Delivery, Payload, RelayError};
use crate::role::{role_of, Role};

verus! {

/// Where a connection stands in its life.
#[derive(Clone, Copy, Debug, PartialEq, Eq, Structural)]
pub enum Phase {
    /// The transport has made the connection; its role is not yet recorded.
    Opening,
    /// The connection is recorded and its messages are forwarded.
    Active,
    /// The transport has reported the close. Nothing follows.
    Closed,
}

/// One connection as its handler sees it.
pub struct Session {
    identity: u32,
    phase: Phase,
}

impl Session {
    /// The identity that the transport gave the connection.
    pub closed spec fn spec_identity(&self) -> u32 {
        self.identity
    }

    /// The phase the connection is in.
    pub closed spec fn spec_phase(&self) -> Phase {
        self.phase
    }

    /// The role of the connection. It depends on the identity alone, so it
    /// is the same in every phase.
    pub open spec fn spec_role(&self) -> Role {
        role_of(self.spec_identity())
    }

    /// A connection that the transport has just made.
    pub fn new(identity: u32) -> (session: Session)
        ensures
            session.spec_identity() == identity,
            session.spec_phase() == Phase::Opening,
    {
        Session { identity, phase: Phase::Opening }
    }

    #[verifier::when_used_as_spec(spec_identity)]
    pub fn identity(&self) -> (identity: u32)
        ensures
            identity == self.spec_identity(),
    {
        self.identity
    }

    #[verifier::when_used_as_spec(spec_phase)]
    pub fn phase(&self) -> (phase: Phase)
        ensures
            phase == self.spec_phase(),
    {
        self.phase
    }

    #[verifier::when_used_as_spec(spec_role)]
    pub fn role(&self) -> (role: Role)
        ensures
            role == self.spec_role(),
    {
        Role::of_identity(self.identity)
    }

    /// Finishes opening: records the connection in the registry under its
    /// role and makes it active. A connection that is past opening is left
    /// as it is, and so is the registry.
    pub fn open<H>(&mut self, registry: &mut Registry<H>, handle: H) -> (opened: Result<
        Role,
        RelayError,
    >)
        ensures
            final(self).spec_identity() == old(self).spec_identity(),
            match old(self).spec_phase() {
                Phase::Opening => {
                    &&& opened == Ok::<Role, RelayError>(old(self).spec_role())
                    &&& final(self).spec_phase() == Phase::Active
                    &&& final(registry)@ == old(registry)@.opened(old(self).spec_identity(), handle)
                },
                Phase::Active => {
                    &&& opened == Err::<Role, RelayError>(RelayError::AlreadyOpened)
                    &&& final(self).spec_phase() == Phase::Active
                    &&& final(registry)@ == old(registry)@
                },
                Phase::Closed => {
                    &&& opened == Err::<Role, RelayError>(RelayError::ConnectionClosed)
                    &&& final(self).spec_phase() == Phase::Closed
                    &&& final(registry)@ == old(registry)@
                },
            },
    {
        match self.phase {
            Phase::Opening => {
                let role = registry.assign_role(self.identity, handle);
                self.phase = Phase::Active;
                Ok(role)
            },
            Phase::Active => Err(RelayError::AlreadyOpened),
            Phase::Closed => Err(RelayError::ConnectionClosed),
        }
    }

    /// Handles one message that arrived on this connection: an active
    /// connection forwards it to the current peer of the opposite role.
    pub fn on_message<'a, H>(
        &self,
        registry: &'a Registry<H>,
        message: &'a Payload,
    ) -> (routed: Result<Delivery<'a, H>, RelayError>)
        ensures
            match routed {
                Ok(delivery) => {
                    &&& self.spec_phase() == Phase::Active
                    &&& registry@.target(self.spec_role()) == Some(*delivery.peer)
                    &&& delivery.target == self.spec_role().spec_opposite()
                    &&& delivery.target != self.spec_role()
                    &&& *delivery.payload == *message
                },
                Err(error) => match self.spec_phase() {
                    Phase::Opening => error == RelayError::NotOpened,
                    Phase::Closed => error == RelayError::ConnectionClosed,
                    Phase::Active => {
                        &&& registry@.target(self.spec_role()) is None
                        &&& error == (RelayError::PeerAbsent {
                            role: self.spec_role().spec_opposite(),
                        })
                    },
                },
            },
    {
        match self.phase {
            Phase::Opening => Err(RelayError::NotOpened),
            Phase::Closed => Err(RelayError::ConnectionClosed),
            Phase::Active => registry.forward(self.role(), message),
        }
    }

    /// Handles the close that the transport reported. The connection is
    /// closed from then on. An active connection gives up its own slot, if
    /// it still holds it; the slot of the other role is never touched.
    pub fn on_close<H>(&mut self, registry: &mut Registry<H>) -> (outcome: CloseOutcome)
        ensures
            final(self).spec_identity() == old(self).spec_identity(),
            final(self).spec_phase() == Phase::Closed,
            old(self).spec_phase() == Phase::Active ==> {
                &&& outcome == close_outcome(old(registry)@, old(self).spec_identity())
                &&& final(registry)@ == old(registry)@.closed(old(self).spec_identity())
            },
            old(self).spec_phase() != Phase::Active ==> {
                &&& outcome == CloseOutcome::Stale
                &&& final(registry)@ == old(registry)@
            },
    {
        let was = self.phase;
        self.phase = Phase::Closed;
        match was {
            Phase::Active => registry.close(self.identity),
            _ => CloseOutcome::Stale,
        }
    }
}

} // verus!
