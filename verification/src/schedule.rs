//! Many connections at once, one context.
//!
//! The daemon serves its connections side by side, and each of them takes its
//! steps when its own bytes arrive. A step has the context to itself from its
//! first line to its last, so the steps of all the connections fall into one
//! order. This module describes the daemon under any such order, and shows
//! that the context never holds anything but what the complete requests,
//! served one at a time, have made of it.
use crate::session::{fresh, run, step_of, EventView, Phase, SessionView};
use crate::state::StateView;
use crate::wire::{reply_text, state_served};
use vstd::prelude::*;
use vstd::utf8::*;

verus! {

/// The daemon with its open connections, as contracts see it.
pub struct DaemonView {
    /// The sessions by the number of their connection.
    pub sessions: Map<nat, SessionView>,
    pub state: StateView,
}

/// Something that happened on one of the connections.
pub struct Occurrence {
    pub connection: nat,
    pub event: EventView,
}

/// A request that was served, with the response it got.
pub struct Exchange {
    pub request: Seq<u8>,
    pub response: Seq<u8>,
}

/// A daemon that has served nothing yet.
pub open spec fn started(state: StateView) -> DaemonView {
    DaemonView { sessions: Map::empty(), state }
}

/// The session of a connection; a connection not seen before has a new one.
pub open spec fn session_on(daemon: DaemonView, connection: nat) -> SessionView {
    if daemon.sessions.dom().contains(connection) {
        daemon.sessions[connection]
    } else {
        fresh()
    }
}

/// The daemon after the session concerned has taken its step.
pub open spec fn after(daemon: DaemonView, occurrence: Occurrence) -> DaemonView {
    let step = step_of(session_on(daemon, occurrence.connection), occurrence.event, daemon.state);
    DaemonView {
        sessions: daemon.sessions.insert(occurrence.connection, step.session),
        state: step.state,
    }
}

/// The daemon after all of `schedule`, in its order.
pub open spec fn after_all(daemon: DaemonView, schedule: Seq<Occurrence>) -> DaemonView
    decreases schedule.len(),
{
    if schedule.len() == 0 {
        daemon
    } else {
        after(after_all(daemon, schedule.drop_last()), schedule.last())
    }
}

/// Whether `occurrence` completes a request, so that it is served.
pub open spec fn completes(daemon: DaemonView, occurrence: Occurrence) -> bool {
    session_on(daemon, occurrence.connection).phase == Phase::Reading
        && occurrence.event is EndOfInput
}

/// The requests that are served in the course of `schedule`, in the order in
/// which they became complete, each with the response that was handed out.
pub open spec fn exchanges(daemon: DaemonView, schedule: Seq<Occurrence>) -> Seq<Exchange>
    decreases schedule.len(),
{
    if schedule.len() == 0 {
        Seq::empty()
    } else {
        let earlier = exchanges(daemon, schedule.drop_last());
        let before = after_all(daemon, schedule.drop_last());
        let last = schedule.last();
        if completes(before, last) {
            let step = step_of(session_on(before, last.connection), last.event, before.state);
            earlier.push(
                Exchange {
                    request: session_on(before, last.connection).request,
                    response: step.action->Reply_0,
                },
            )
        } else {
            earlier
        }
    }
}

/// The context after these requests, served one at a time.
pub open spec fn served_in_turn(requests: Seq<Seq<u8>>, state: StateView) -> StateView
    decreases requests.len(),
{
    if requests.len() == 0 {
        state
    } else {
        state_served(requests.last(), served_in_turn(requests.drop_last(), state))
    }
}

/// The requests of `exchanges`, in their order.
pub open spec fn requests_of(exchanges: Seq<Exchange>) -> Seq<Seq<u8>> {
    Seq::new(exchanges.len(), |i: int| exchanges[i].request)
}

/// What happened on one connection in the course of `schedule`.
pub open spec fn events_on(schedule: Seq<Occurrence>, connection: nat) -> Seq<EventView>
    decreases schedule.len(),
{
    if schedule.len() == 0 {
        Seq::empty()
    } else {
        let earlier = events_on(schedule.drop_last(), connection);
        if schedule.last().connection == connection {
            earlier.push(schedule.last().event)
        } else {
            earlier
        }
    }
}

/// Connections do not mix. Where a session stands and what it has gathered
/// of its request comes from what happened on its own connection and from
/// nothing else: not from the other connections, and not from the context.
pub proof fn lemma_connections_do_not_mix(
    state: StateView,
    schedule: Seq<Occurrence>,
    connection: nat,
    alone: StateView,
)
    ensures
        session_on(after_all(started(state), schedule), connection) == run(
            fresh(),
            events_on(schedule, connection),
            alone,
        ).session,
    decreases schedule.len(),
{
    if schedule.len() > 0 {
        lemma_connections_do_not_mix(state, schedule.drop_last(), connection, alone);
        let events = events_on(schedule, connection);
        if schedule.last().connection == connection {
            assert(events.drop_last() =~= events_on(schedule.drop_last(), connection));
            assert(events.last() == schedule.last().event);
        }
    }
}

/// However the steps of the connections fall between one another, the daemon
/// behaves as if it had served the complete requests one at a time, in the
/// order in which they became complete: its context is the one that they leave
/// behind in that order, and each response is the one that its request gets on
/// the context that the requests before it left. Nothing else changes the
/// context, and no request sees it half changed.
pub proof fn lemma_served_one_at_a_time(daemon: DaemonView, schedule: Seq<Occurrence>)
    ensures
        ({
            let done = exchanges(daemon, schedule);
            let requests = requests_of(done);
            &&& after_all(daemon, schedule).state == served_in_turn(requests, daemon.state)
            &&& forall|k: int|
                0 <= k < done.len() ==> (#[trigger] done[k]).response == encode_utf8(
                    reply_text(done[k].request, served_in_turn(requests.take(k), daemon.state)),
                )
        }),
    decreases schedule.len(),
{
    let done = exchanges(daemon, schedule);
    let requests = requests_of(done);
    if schedule.len() == 0 {
        assert(requests =~= Seq::<Seq<u8>>::empty());
    } else {
        let earlier = exchanges(daemon, schedule.drop_last());
        let earlier_requests = requests_of(earlier);
        let before = after_all(daemon, schedule.drop_last());
        lemma_served_one_at_a_time(daemon, schedule.drop_last());
        if completes(before, schedule.last()) {
            assert(requests.drop_last() =~= earlier_requests);
            assert(requests.take(earlier.len() as int) =~= earlier_requests);
            assert forall|k: int| 0 <= k < earlier.len() implies requests.take(k)
                =~= earlier_requests.take(k) by {}
            assert forall|k: int| 0 <= k < done.len() implies (#[trigger] done[k]).response
                == encode_utf8(
                reply_text(done[k].request, served_in_turn(requests.take(k), daemon.state)),
            ) by {
                if k < earlier.len() {
                    assert(done[k] == earlier[k]);
                    assert(requests.take(k) =~= earlier_requests.take(k));
                }
            }
        } else {
            assert(requests =~= earlier_requests);
        }
    }
}

} // verus!
