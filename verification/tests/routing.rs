use ws_debug::registry::{CloseOutcome, Registry};
use ws_debug::relay::{Payload, RelayError};
use ws_debug::role::{Role, PRIMARY_ID};
use ws_debug::session::{Phase, Session};

fn text(s: &str) -> Payload {
    Payload::Text(s.to_string())
}

#[test]
fn primary_identity_is_zero() {
    assert_eq!(PRIMARY_ID, 0);
}

#[test]
fn role_follows_identity() {
    assert_eq!(Role::of_identity(0), Role::Upstream);
    assert_eq!(Role::of_identity(1), Role::Downstream);
    assert_eq!(Role::of_identity(2), Role::Downstream);
    assert_eq!(Role::of_identity(u32::MAX), Role::Downstream);
}

#[test]
fn opposite_swaps_the_roles() {
    assert_eq!(Role::Upstream.opposite(), Role::Downstream);
    assert_eq!(Role::Downstream.opposite(), Role::Upstream);
    assert!(Role::Upstream.is_upstream());
    assert!(!Role::Downstream.is_upstream());
}

#[test]
fn new_registry_has_no_peers() {
    let registry: Registry<&str> = Registry::new();
    assert_eq!(registry.peer_for(Role::Upstream), None);
    assert_eq!(registry.peer_for(Role::Downstream), None);
    assert_eq!(registry.downstream_identity(), None);
}

#[test]
fn first_connection_is_upstream_and_the_rest_downstream() {
    let mut registry: Registry<&str> = Registry::new();
    assert_eq!(registry.assign_role(0, "server"), Role::Upstream);
    assert_eq!(registry.assign_role(1, "first"), Role::Downstream);
    assert_eq!(registry.assign_role(2, "second"), Role::Downstream);
    assert_eq!(registry.assign_role(900, "third"), Role::Downstream);
    assert_eq!(registry.peer_for(Role::Upstream), Some(&"server"));
    assert_eq!(registry.peer_for(Role::Downstream), Some(&"third"));
    assert_eq!(registry.downstream_identity(), Some(900));
}

#[test]
fn roles_do_not_depend_on_the_order_of_opening() {
    let mut registry: Registry<&str> = Registry::new();
    assert_eq!(registry.assign_role(5, "early"), Role::Downstream);
    assert_eq!(registry.assign_role(0, "server"), Role::Upstream);
    assert_eq!(registry.assign_role(6, "late"), Role::Downstream);
    assert_eq!(registry.assign_role(0, "again"), Role::Upstream);
    assert_eq!(registry.peer_for(Role::Upstream), Some(&"server"));
    assert_eq!(registry.peer_for(Role::Downstream), Some(&"late"));
}

#[test]
fn upstream_slot_is_filled_once() {
    let mut registry: Registry<&str> = Registry::new();
    registry.assign_role(0, "server");
    registry.assign_role(0, "impostor");
    assert_eq!(registry.peer_for(Role::Upstream), Some(&"server"));
}

#[test]
fn message_from_upstream_reaches_downstream_unchanged() {
    let mut registry: Registry<&str> = Registry::new();
    registry.assign_role(0, "server");
    registry.assign_role(1, "client");
    let hello = text("hello");
    let delivery = registry.forward(Role::Upstream, &hello).unwrap();
    assert_eq!(delivery.target, Role::Downstream);
    assert_eq!(*delivery.peer, "client");
    assert_eq!(*delivery.payload, text("hello"));
}

#[test]
fn binary_stays_binary_and_text_stays_text() {
    let mut registry: Registry<&str> = Registry::new();
    registry.assign_role(0, "server");
    registry.assign_role(1, "client");
    let bytes = Payload::Binary(vec![0, 159, 146, 150, 255]);
    let delivery = registry.forward(Role::Upstream, &bytes).unwrap();
    assert_eq!(*delivery.payload, Payload::Binary(vec![0, 159, 146, 150, 255]));
    assert!(!delivery.payload.is_text());
    let list = text("[1, 2]");
    let delivery = registry.forward(Role::Downstream, &list).unwrap();
    assert_eq!(*delivery.payload, text("[1, 2]"));
    assert!(delivery.payload.is_text());
    let empty = text("");
    let delivery = registry.forward(Role::Upstream, &empty).unwrap();
    assert_eq!(*delivery.payload, text(""));
}

#[test]
fn message_never_returns_to_the_role_it_came_from() {
    let mut registry: Registry<&str> = Registry::new();
    registry.assign_role(0, "server");
    registry.assign_role(1, "client");
    let from_server = text("a");
    let down = registry.forward(Role::Upstream, &from_server).unwrap();
    assert_ne!(down.target, Role::Upstream);
    assert_eq!(*down.peer, "client");
    let from_client = text("b");
    let up = registry.forward(Role::Downstream, &from_client).unwrap();
    assert_ne!(up.target, Role::Downstream);
    assert_eq!(*up.peer, "server");
}

#[test]
fn replacement_redirects_later_messages() {
    let mut registry: Registry<&str> = Registry::new();
    registry.assign_role(0, "server");
    registry.assign_role(1, "old");
    assert_eq!(*registry.forward(Role::Upstream, &text("one")).unwrap().peer, "old");
    registry.assign_role(2, "new");
    assert_eq!(*registry.forward(Role::Upstream, &text("two")).unwrap().peer, "new");
    assert_eq!(*registry.forward(Role::Upstream, &text("three")).unwrap().peer, "new");
    assert_eq!(registry.downstream_identity(), Some(2));
}

#[test]
fn forwarding_without_a_client_is_an_error() {
    let mut registry: Registry<&str> = Registry::new();
    registry.assign_role(0, "server");
    let lost = text("lost");
    let routed = registry.forward(Role::Upstream, &lost);
    assert_eq!(routed.err(), Some(RelayError::PeerAbsent { role: Role::Downstream }));
}

#[test]
fn forwarding_without_a_server_is_an_error() {
    let mut registry: Registry<&str> = Registry::new();
    registry.assign_role(3, "client");
    let lost = text("lost");
    let routed = registry.forward(Role::Downstream, &lost);
    assert_eq!(routed.err(), Some(RelayError::PeerAbsent { role: Role::Upstream }));
}

#[test]
fn close_clears_the_current_downstream_peer() {
    let mut registry: Registry<&str> = Registry::new();
    registry.assign_role(0, "server");
    registry.assign_role(1, "client");
    assert_eq!(registry.close(1), CloseOutcome::DownstreamCleared);
    assert_eq!(registry.peer_for(Role::Downstream), None);
    assert_eq!(registry.peer_for(Role::Upstream), Some(&"server"));
    let late = text("late");
    let routed = registry.forward(Role::Upstream, &late);
    assert_eq!(routed.err(), Some(RelayError::PeerAbsent { role: Role::Downstream }));
}

#[test]
fn close_of_a_replaced_peer_changes_nothing() {
    let mut registry: Registry<&str> = Registry::new();
    registry.assign_role(0, "server");
    registry.assign_role(1, "old");
    registry.assign_role(2, "new");
    assert_eq!(registry.close(1), CloseOutcome::Stale);
    assert_eq!(registry.peer_for(Role::Downstream), Some(&"new"));
    assert_eq!(registry.close(77), CloseOutcome::Stale);
    assert_eq!(registry.peer_for(Role::Downstream), Some(&"new"));
}

#[test]
fn close_of_upstream_keeps_both_slots() {
    let mut registry: Registry<&str> = Registry::new();
    registry.assign_role(0, "server");
    registry.assign_role(1, "client");
    assert_eq!(registry.close(0), CloseOutcome::UpstreamLost);
    assert_eq!(registry.peer_for(Role::Upstream), Some(&"server"));
    assert_eq!(registry.peer_for(Role::Downstream), Some(&"client"));
}

#[test]
fn session_goes_from_opening_to_active_to_closed() {
    let mut registry: Registry<&str> = Registry::new();
    let mut session = Session::new(4);
    assert_eq!(session.identity(), 4);
    assert_eq!(session.role(), Role::Downstream);
    assert_eq!(session.phase(), Phase::Opening);
    assert_eq!(session.open(&mut registry, "client"), Ok(Role::Downstream));
    assert_eq!(session.phase(), Phase::Active);
    assert_eq!(registry.peer_for(Role::Downstream), Some(&"client"));
    assert_eq!(session.on_close(&mut registry), CloseOutcome::DownstreamCleared);
    assert_eq!(session.phase(), Phase::Closed);
    assert_eq!(session.role(), Role::Downstream);
    assert_eq!(registry.peer_for(Role::Downstream), None);
}

#[test]
fn session_cannot_be_opened_twice() {
    let mut registry: Registry<&str> = Registry::new();
    let mut session = Session::new(4);
    assert_eq!(session.open(&mut registry, "client"), Ok(Role::Downstream));
    assert_eq!(session.open(&mut registry, "other"), Err(RelayError::AlreadyOpened));
    assert_eq!(registry.peer_for(Role::Downstream), Some(&"client"));
    session.on_close(&mut registry);
    assert_eq!(session.open(&mut registry, "other"), Err(RelayError::ConnectionClosed));
    assert_eq!(registry.peer_for(Role::Downstream), None);
}

#[test]
fn session_forwards_only_while_active() {
    let mut registry: Registry<&str> = Registry::new();
    let mut server = Session::new(0);
    let mut client = Session::new(1);
    assert_eq!(
        client.on_message(&registry, &text("early")).err(),
        Some(RelayError::NotOpened)
    );
    assert_eq!(server.open(&mut registry, "server"), Ok(Role::Upstream));
    assert_eq!(client.open(&mut registry, "client"), Ok(Role::Downstream));
    let now = text("now");
    let delivery = client.on_message(&registry, &now).unwrap();
    assert_eq!(*delivery.peer, "server");
    assert_eq!(delivery.target, Role::Upstream);
    assert_eq!(*delivery.payload, text("now"));
    client.on_close(&mut registry);
    assert_eq!(
        client.on_message(&registry, &text("late")).err(),
        Some(RelayError::ConnectionClosed)
    );
}

#[test]
fn server_message_before_any_client_is_refused() {
    let mut registry: Registry<&str> = Registry::new();
    let mut server = Session::new(0);
    server.open(&mut registry, "server").unwrap();
    assert_eq!(
        server.on_message(&registry, &text("hello?")).err(),
        Some(RelayError::PeerAbsent { role: Role::Downstream })
    );
}

#[test]
fn second_close_is_stale() {
    let mut registry: Registry<&str> = Registry::new();
    let mut first = Session::new(1);
    first.open(&mut registry, "first").unwrap();
    assert_eq!(first.on_close(&mut registry), CloseOutcome::DownstreamCleared);
    let mut second = Session::new(2);
    second.open(&mut registry, "second").unwrap();
    assert_eq!(first.on_close(&mut registry), CloseOutcome::Stale);
    assert_eq!(registry.peer_for(Role::Downstream), Some(&"second"));
}

#[test]
fn close_before_opening_leaves_the_registry_alone() {
    let mut registry: Registry<&str> = Registry::new();
    registry.assign_role(9, "client");
    let mut session = Session::new(9);
    assert_eq!(session.on_close(&mut registry), CloseOutcome::Stale);
    assert_eq!(session.phase(), Phase::Closed);
    assert_eq!(registry.peer_for(Role::Downstream), Some(&"client"));
}

#[test]
fn upstream_session_close_is_reported() {
    let mut registry: Registry<&str> = Registry::new();
    let mut server = Session::new(0);
    server.open(&mut registry, "server").unwrap();
    assert_eq!(server.on_close(&mut registry), CloseOutcome::UpstreamLost);
    assert_eq!(registry.peer_for(Role::Upstream), Some(&"server"));
}
