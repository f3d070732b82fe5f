//! The two roles a connection can play, and how an identity selects one.
use vstd::prelude::*;

verus! {

/// The identity that the transport gives to the first connection it opens:
/// the outbound connection to the server.
pub const PRIMARY_ID: u32 = 0;

/// The side of the session that a connection stands on.
///
/// `Upstream` is the server side: the single outbound connection.
/// `Downstream` is the client side: a connection accepted on the listening port.
#[derive(Clone, Copy, Debug, PartialEq, Eq, Structural)]
pub enum Role {
    Upstream,
    Downstream,
}

/// The role that belongs to an identity: the primary identity is upstream,
/// every other identity is downstream.
pub open spec fn role_of(identity: u32) -> Role {
    if identity == PRIMARY_ID {
        Role::Upstream
    } else {
        Role::Downstream
    }
}

impl Role {
    /// The other role.
    pub open spec fn spec_opposite(self) -> Role {
        match self {
            Role::Upstream => Role::Downstream,
            Role::Downstream => Role::Upstream,
        }
    }

    /// The role that a connection with this identity plays.
    pub fn of_identity(identity: u32) -> (role: Role)
        ensures
            role == role_of(identity),
    {
        if identity == PRIMARY_ID {
            Role::Upstream
        } else {
            Role::Downstream
        }
    }

    /// The role that messages arriving on this role are sent to.
    #[verifier::when_used_as_spec(spec_opposite)]
    pub fn opposite(self) -> (other: Role)
        ensures
            other == self.spec_opposite(),
    {
        match self {
            Role::Upstream => Role::Downstream,
            Role::Downstream => Role::Upstream,
        }
    }

    /// Whether this is the server side.
    pub fn is_upstream(self) -> (yes: bool)
        ensures
            yes == (self == Role::Upstream),
    {
        match self {
            Role::Upstream => true,
            Role::Downstream => false,
        }
    }
}

} // verus!
