//! What holds of the peer slots in every state and after every run of events.
use vstd::prelude::*;
use crate::registry::{Peer, Slots};
use crate::role::{role_of, Role, PRIMARY_ID};

verus! {

/// The slots after a run of connection-open events, oldest first.
pub open spec fn opened_all<H>(slots: Slots<H>, opens: Seq<Peer<H>>) -> Slots<H>
    decreases opens.len(),
{
    if opens.len() == 0 {
        slots
    } else {
        opened_all(slots, opens.drop_last()).opened(opens.last().identity, opens.last().handle)
    }
}

/// Whether `opens[at]` is the first event of the run with the primary identity.
pub open spec fn first_primary<H>(opens: Seq<Peer<H>>, at: int) -> bool {
    &&& 0 <= at < opens.len()
    &&& opens[at].identity == PRIMARY_ID
    &&& forall|before: int| 0 <= before < at ==> opens[before].identity != PRIMARY_ID
}

/// Whether `opens[at]` is the last event of the run with another identity
/// than the primary one.
pub open spec fn last_inbound<H>(opens: Seq<Peer<H>>, at: int) -> bool {
    &&& 0 <= at < opens.len()
    &&& opens[at].identity != PRIMARY_ID
    &&& forall|after: int| at < after < opens.len() ==> opens[after].identity == PRIMARY_ID
}

/// Something that happens to a connection and that the registry takes note of.
pub enum Event<H> {
    /// The connection with `identity` opened; `handle` reaches it.
    Opened { identity: u32, handle: H },
    /// The connection with `identity` closed.
    Closed { identity: u32 },
}

impl<H> Event<H> {
    /// Whether the event puts a peer into the downstream slot.
    pub open spec fn fills_downstream(self) -> bool {
        self matches Event::Opened { identity, .. } && identity != PRIMARY_ID
    }

    /// Whether the event is the close of the connection with `identity`.
    pub open spec fn closes(self, identity: u32) -> bool {
        self matches Event::Closed { identity: closing } && closing == identity
    }
}

/// The slots after one event.
pub open spec fn after_event<H>(slots: Slots<H>, event: Event<H>) -> Slots<H> {
    match event {
        Event::Opened { identity, handle } => slots.opened(identity, handle),
        Event::Closed { identity } => slots.closed(identity),
    }
}

/// The slots after a run of events, oldest first.
pub open spec fn after_events<H>(slots: Slots<H>, events: Seq<Event<H>>) -> Slots<H>
    decreases events.len(),
{
    if events.len() == 0 {
        slots
    } else {
        after_event(after_events(slots, events.drop_last()), events.last())
    }
}

/// An identity is upstream exactly if it is the primary one, and downstream
/// exactly if it is any other, whatever was opened before.
pub proof fn law_role_follows_identity(identity: u32)
    ensures
        role_of(identity) == Role::Upstream <==> identity == PRIMARY_ID,
        role_of(identity) == Role::Downstream <==> identity != PRIMARY_ID,
{
}

/// The two roles are distinct and opposite to each other: a message that
/// goes to the opposite role never comes back to the role it arrived on.
pub proof fn law_opposite_is_other(role: Role)
    ensures
        role.spec_opposite() != role,
        role.spec_opposite().spec_opposite() == role,
{
}

/// Opening a connection keeps the slots well formed, and so does closing one.
pub proof fn law_events_keep_wf<H>(slots: Slots<H>, identity: u32, handle: H)
    requires
        slots.wf(),
    ensures
        slots.opened(identity, handle).wf(),
        slots.closed(identity).wf(),
{
}

/// Recording the same connection a second time changes nothing.
pub proof fn law_open_is_idempotent<H>(slots: Slots<H>, identity: u32, handle: H)
    ensures
        slots.opened(identity, handle).opened(identity, handle) == slots.opened(identity, handle),
{
}

/// Once the upstream slot is filled, no event changes it.
pub proof fn law_upstream_is_kept<H>(slots: Slots<H>, identity: u32, handle: H)
    requires
        slots.upstream is Some,
    ensures
        slots.opened(identity, handle).upstream == slots.upstream,
        slots.closed(identity).upstream == slots.upstream,
{
}

/// A newly opened downstream connection takes the place of the one before
/// it: from then on messages from upstream go to the new peer. The late
/// close of another downstream connection does not disturb it.
pub proof fn law_replacement_targets_newest<H>(
    slots: Slots<H>,
    identity: u32,
    handle: H,
    stale: u32,
)
    requires
        identity != PRIMARY_ID,
    ensures
        slots.opened(identity, handle).downstream == Some(Peer { identity, handle }),
        slots.opened(identity, handle).target(Role::Upstream) == Some(handle),
        stale != identity ==> slots.opened(identity, handle).closed(stale) == slots.opened(
            identity,
            handle,
        ),
{
}

/// Well-formed slots stay well formed through every run of events.
pub proof fn law_runs_keep_wf<H>(slots: Slots<H>, events: Seq<Event<H>>)
    requires
        slots.wf(),
    ensures
        after_events(slots, events).wf(),
    decreases events.len(),
{
    if events.len() > 0 {
        law_runs_keep_wf(slots, events.drop_last());
    }
}

/// Once the upstream slot is filled, it holds the same peer after every run
/// of events: it is never overwritten and never cleared.
pub proof fn law_upstream_lasts<H>(slots: Slots<H>, events: Seq<Event<H>>)
    requires
        slots.upstream is Some,
    ensures
        after_events(slots, events).upstream == slots.upstream,
    decreases events.len(),
{
    if events.len() > 0 {
        law_upstream_lasts(slots, events.drop_last());
    }
}

/// A downstream peer stays the target of the messages from upstream until
/// another downstream connection opens or its own connection closes,
/// whatever else happens in between.
pub proof fn law_replacement_lasts<H>(
    slots: Slots<H>,
    identity: u32,
    handle: H,
    later: Seq<Event<H>>,
)
    requires
        identity != PRIMARY_ID,
        forall|at: int|
            0 <= at < later.len() ==> !(#[trigger] later[at]).fills_downstream() && !later[at].closes(
                identity,
            ),
    ensures
        after_events(slots.opened(identity, handle), later).downstream == Some(
            Peer { identity, handle },
        ),
        after_events(slots.opened(identity, handle), later).target(Role::Upstream) == Some(handle),
    decreases later.len(),
{
    if later.len() > 0 {
        let earlier = later.drop_last();
        assert forall|at: int| 0 <= at < earlier.len() implies !(#[trigger] earlier[at]).fills_downstream()
            && !earlier[at].closes(identity) by {
            assert(earlier[at] == later[at]);
        }
        law_replacement_lasts(slots, identity, handle, earlier);
        assert(!later[later.len() - 1].fills_downstream());
        assert(!later[later.len() - 1].closes(identity));
    }
}

/// While no downstream connection is recorded, a message from upstream has
/// no target. That is so before the first client connects and after the
/// current one has closed.
pub proof fn law_absent_downstream_has_no_target<H>(slots: Slots<H>, upstream: H, identity: u32)
    ensures
        slots.downstream is None ==> slots.target(Role::Upstream) is None,
        Slots::<H>::empty().opened(PRIMARY_ID, upstream).target(Role::Upstream) is None,
        slots.holds_downstream(identity) ==> slots.closed(identity).target(Role::Upstream) is None,
{
}

/// After any run of open events on empty slots: the upstream slot holds the
/// first primary connection, the downstream slot holds the last of the
/// others, and a slot is empty exactly if the run has no connection for it.
pub proof fn law_open_sequence<H>(opens: Seq<Peer<H>>)
    ensures
        opened_all(Slots::<H>::empty(), opens).wf(),
        forall|at: int| #[trigger]
            first_primary(opens, at) ==> opened_all(Slots::<H>::empty(), opens).upstream == Some(
                opens[at].handle,
            ),
        forall|at: int| #[trigger]
            last_inbound(opens, at) ==> opened_all(Slots::<H>::empty(), opens).downstream == Some(
                opens[at],
            ),
        opened_all(Slots::<H>::empty(), opens).upstream is None <==> forall|at: int|
            0 <= at < opens.len() ==> (#[trigger] opens[at]).identity != PRIMARY_ID,
        opened_all(Slots::<H>::empty(), opens).downstream is None <==> forall|at: int|
            0 <= at < opens.len() ==> (#[trigger] opens[at]).identity == PRIMARY_ID,
    decreases opens.len(),
{
    if opens.len() > 0 {
        let earlier = opens.drop_last();
        let newest = opens.last();
        let before = opened_all(Slots::<H>::empty(), earlier);
        let after = opened_all(Slots::<H>::empty(), opens);
        law_open_sequence(earlier);
        assert(after == before.opened(newest.identity, newest.handle));
        assert forall|at: int| #[trigger] first_primary(opens, at) implies after.upstream == Some(
            opens[at].handle,
        ) by {
            if at < earlier.len() {
                assert(first_primary(earlier, at)) by {
                    assert forall|b: int| 0 <= b < at implies earlier[b].identity
                        != PRIMARY_ID by {
                        assert(earlier[b] == opens[b]);
                    }
                    assert(earlier[at] == opens[at]);
                }
                assert(earlier[at] == opens[at]);
            } else {
                assert forall|b: int| 0 <= b < earlier.len() implies (#[trigger] earlier[b]).identity
                    != PRIMARY_ID by {
                    assert(earlier[b] == opens[b]);
                }
            }
        }
        assert forall|at: int| #[trigger] last_inbound(opens, at) implies after.downstream == Some(
            opens[at],
        ) by {
            if at < earlier.len() {
                assert(newest.identity == PRIMARY_ID) by {
                    assert(opens[opens.len() - 1] == newest);
                }
                assert(last_inbound(earlier, at)) by {
                    assert forall|a: int| at < a < earlier.len() implies earlier[a].identity
                        == PRIMARY_ID by {
                        assert(earlier[a] == opens[a]);
                    }
                    assert(earlier[at] == opens[at]);
                }
                assert(earlier[at] == opens[at]);
            }
        }
        if after.upstream is None {
            assert forall|at: int| 0 <= at < opens.len() implies (#[trigger] opens[at]).identity
                != PRIMARY_ID by {
                if at < earlier.len() {
                    assert(earlier[at] == opens[at]);
                }
            }
        }
        if forall|at: int| 0 <= at < opens.len() ==> (#[trigger] opens[at]).identity != PRIMARY_ID {
            assert(opens[opens.len() - 1].identity != PRIMARY_ID);
            assert forall|at: int| 0 <= at < earlier.len() implies (#[trigger] earlier[at]).identity
                != PRIMARY_ID by {
                assert(earlier[at] == opens[at]);
            }
        }
        if after.downstream is None {
            assert forall|at: int| 0 <= at < opens.len() implies (#[trigger] opens[at]).identity
                == PRIMARY_ID by {
                if at < earlier.len() {
                    assert(earlier[at] == opens[at]);
                }
            }
        }
        if forall|at: int| 0 <= at < opens.len() ==> (#[trigger] opens[at]).identity == PRIMARY_ID {
            assert(opens[opens.len() - 1].identity == PRIMARY_ID);
            assert forall|at: int| 0 <= at < earlier.len() implies (#[trigger] earlier[at]).identity
                == PRIMARY_ID by {
                assert(earlier[at] == opens[at]);
            }
        }
    }
}

} // verus!
