//! Forwarding: one message from the role it arrived on to the opposite role.
//!
//! A message with no peer to receive it is an error that the caller must act
//! on; it is never dropped in silence.
use vstd::prelude::*;
use crate::registry::Registry;
use crate::role::Role;

verus! {

/// A message: text or bytes. It carries nothing that says where it goes.
#[derive(Clone, Debug, PartialEq, Eq)]
pub enum Payload {
    Text(String),
    Binary(Vec<u8>),
}

/// A message as a mathematical value.
pub enum PayloadView {
    Text(Seq<char>),
    Binary(Seq<u8>),
}

impl View for Payload {
    type V = PayloadView;

    open spec fn view(&self) -> PayloadView {
        match self {
            Payload::Text(text) => PayloadView::Text(text@),
            Payload::Binary(bytes) => PayloadView::Binary(bytes@),
        }
    }
}

impl Payload {
    /// Whether the message is text.
    pub fn is_text(&self) -> (yes: bool)
        ensures
            yes == (self is Text),
    {
        match self {
            Payload::Text(_) => true,
            Payload::Binary(_) => false,
        }
    }
}

/// Why a message could not be handled.
#[derive(Clone, Copy, Debug, PartialEq, Eq, Structural)]
pub enum RelayError {
    /// No connection of this role is there to receive the message.
    PeerAbsent { role: Role },
    /// The connection has not finished opening.
    NotOpened,
    /// The connection was opened before and cannot be opened again.
    AlreadyOpened,
    /// The connection has closed.
    ConnectionClosed,
}

/// A message on its way: what to send, and the peer to send it to.
pub struct Delivery<'a, H> {
    /// The role of the receiving peer.
    pub target: Role,
    /// The receiving peer.
    pub peer: &'a H,
    /// The message, as it arrived.
    pub payload: &'a Payload,
}

impl<H> Registry<H> {
    /// Routes a message that arrived on `arrival` to the current peer of the
    /// opposite role.
    pub fn forward<'a>(&'a self, arrival: Role, message: &'a Payload) -> (routed: Result<
        Delivery<'a, H>,
        RelayError,
    >)
        ensures
            match routed {
                Ok(delivery) => {
                    &&& self@.target(arrival) == Some(*delivery.peer)
                    &&& delivery.target == arrival.spec_opposite()
                    &&& delivery.target != arrival
                    &&& *delivery.payload == *message
                },
                Err(error) => {
                    &&& self@.target(arrival) is None
                    &&& error == (RelayError::PeerAbsent { role: arrival.spec_opposite() })
                },
            },
    {
        let target = arrival.opposite();
        match self.peer_for(target) {
            Some(peer) => Ok(Delivery { target, peer, payload: message }),
            None => Err(RelayError::PeerAbsent { role: target }),
        }
    }
}

} // verus!
