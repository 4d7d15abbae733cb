//! The life of one connection on the daemon's side.
//!
//! A session reads until the client has closed its write side, has the whole
//! request served, writes the one response and closes. It does none of the
//! reading and writing itself: whoever owns the connection tells the session
//! what happened on it, and does what the session then asks for.
use crate::state::{DaemonState, StateView};
use crate::wire::{encode, reply_text, respond, state_served, RequestError};
use vstd::prelude::*;
use vstd::utf8::*;

verus! {

/// Where a session stands.
#[derive(Debug, Clone, Copy, PartialEq, Eq)]
pub enum Phase {
    /// The request is still coming in.
    Reading,
    /// The response has been handed out for writing.
    Replying,
    /// Nothing more happens on this connection.
    Closed,
}

/// What happened on the connection.
#[derive(Debug, PartialEq, Eq)]
pub enum Event {
    /// These bytes arrived.
    Received(Vec<u8>),
    /// The client closed its write side: the request is complete.
    EndOfInput,
    /// Reading failed.
    ReadFailed,
    /// The response has been written, or writing it has failed.
    Replied,
}

/// What is to be done on the connection next.
#[derive(Debug, PartialEq, Eq)]
pub enum Action {
    /// Read on.
    Read,
    /// Write these bytes, all of them, flush, and shut down the write side.
    Reply(Vec<u8>),
    /// Close the connection; write nothing.
    Close,
}

/// An [`Event`] as contracts see it.
pub enum EventView {
    Received(Seq<u8>),
    EndOfInput,
    ReadFailed,
    Replied,
}

/// An [`Action`] as contracts see it.
pub enum ActionView {
    Read,
    Reply(Seq<u8>),
    Close,
}

impl View for Event {
    type V = EventView;

    open spec fn view(&self) -> EventView {
        match self {
            Event::Received(chunk) => EventView::Received(chunk@),
            Event::EndOfInput => EventView::EndOfInput,
            Event::ReadFailed => EventView::ReadFailed,
            Event::Replied => EventView::Replied,
        }
    }
}

impl View for Action {
    type V = ActionView;

    open spec fn view(&self) -> ActionView {
        match self {
            Action::Read => ActionView::Read,
            Action::Reply(bytes) => ActionView::Reply(bytes@),
            Action::Close => ActionView::Close,
        }
    }
}

/// A [`Session`] as contracts see it.
pub struct SessionView {
    pub phase: Phase,
    /// The bytes of the request that have arrived; none once it is served.
    pub request: Seq<u8>,
}

/// What one event does to a session and to the daemon's context.
pub struct Step {
    pub session: SessionView,
    pub action: ActionView,
    pub state: StateView,
}

/// The session of a connection that has just been accepted.
pub open spec fn fresh() -> SessionView {
    SessionView { phase: Phase::Reading, request: Seq::empty() }
}

/// The one step that `event` makes a session take.
///
/// While it reads, a session gathers what arrives. The end of the input has the
/// request served; a failure to read is answered with the text of
/// [`RequestError::ReadFailed`], and so is any event that cannot come while
/// reading. Once the response is out, the next event closes the session, and a
/// closed session stays closed.
pub open spec fn step_of(session: SessionView, event: EventView, state: StateView) -> Step {
    match session.phase {
        Phase::Reading => match event {
            EventView::Received(chunk) => Step {
                session: SessionView { phase: Phase::Reading, request: session.request + chunk },
                action: ActionView::Read,
                state,
            },
            EventView::EndOfInput => Step {
                session: SessionView { phase: Phase::Replying, request: Seq::empty() },
                action: ActionView::Reply(encode_utf8(reply_text(session.request, state))),
                state: state_served(session.request, state),
            },
            _ => Step {
                session: SessionView { phase: Phase::Replying, request: Seq::empty() },
                action: ActionView::Reply(encode_utf8(RequestError::ReadFailed.spec_message())),
                state,
            },
        },
        _ => Step {
            session: SessionView { phase: Phase::Closed, request: Seq::empty() },
            action: ActionView::Close,
            state,
        },
    }
}

/// One connection on the daemon's side.
pub struct Session {
    phase: Phase,
    request: Vec<u8>,
}

impl View for Session {
    type V = SessionView;

    closed spec fn view(&self) -> SessionView {
        SessionView { phase: self.phase, request: self.request@ }
    }
}

impl Session {
    /// The session of a connection that has just been accepted. The first
    /// thing to do on the connection is to read.
    pub fn new() -> (session: Session)
        ensures
            session@ == fresh(),
    {
        Session { phase: Phase::Reading, request: Vec::new() }
    }

    /// Where the session stands.
    pub fn phase(&self) -> (phase: Phase)
        ensures
            phase == self@.phase,
    {
        self.phase
    }

    /// Takes note of what happened on the connection and says what to do next.
    /// The daemon's context is read and changed in one case only: when the
    /// request is complete, by the one dispatch that serves it.
    pub fn step(&mut self, event: Event, state: &mut DaemonState) -> (action: Action)
        ensures
            final(self)@ == step_of(old(self)@, event@, old(state)@).session,
            action@ == step_of(old(self)@, event@, old(state)@).action,
            final(state)@ == step_of(old(self)@, event@, old(state)@).state,
    {
        match self.phase {
            Phase::Reading => match event {
                Event::Received(mut chunk) => {
                    self.request.append(&mut chunk);
                    Action::Read
                },
                Event::EndOfInput => {
                    let response = respond(self.request.as_slice(), state);
                    self.phase = Phase::Replying;
                    self.request = Vec::new();
                    Action::Reply(response)
                },
                _ => {
                    let response = encode(RequestError::ReadFailed.message().as_str());
                    self.phase = Phase::Replying;
                    self.request = Vec::new();
                    Action::Reply(response)
                },
            },
            _ => {
                self.phase = Phase::Closed;
                self.request = Vec::new();
                Action::Close
            },
        }
    }
}

/// What a run of events has done to a session and to the daemon's context.
pub struct Run {
    pub session: SessionView,
    /// The actions that were asked for, one for each event.
    pub actions: Seq<ActionView>,
    pub state: StateView,
}

/// The steps that `events` make a session take, one after another.
pub open spec fn run(session: SessionView, events: Seq<EventView>, state: StateView) -> Run
    decreases events.len(),
{
    if events.len() == 0 {
        Run { session, actions: Seq::empty(), state }
    } else {
        let before = run(session, events.drop_last(), state);
        let last = step_of(before.session, events.last(), before.state);
        Run { session: last.session, actions: before.actions.push(last.action), state: last.state }
    }
}

/// The events of a request that arrives in these pieces.
pub open spec fn arrivals(chunks: Seq<Seq<u8>>) -> Seq<EventView> {
    Seq::new(chunks.len(), |i: int| EventView::Received(chunks[i]))
}

/// While the pieces of a request arrive, a new session asks to read on,
/// gathers the pieces in their order and leaves the context alone.
pub proof fn lemma_reading(chunks: Seq<Seq<u8>>, state: StateView)
    ensures
        run(fresh(), arrivals(chunks), state) == (Run {
            session: SessionView { phase: Phase::Reading, request: chunks.flatten() },
            actions: Seq::new(chunks.len(), |i: int| ActionView::Read),
            state,
        }),
    decreases chunks.len(),
{
    broadcast use Seq::lemma_flatten_push;

    let events = arrivals(chunks);
    let reads = Seq::new(chunks.len(), |i: int| ActionView::Read);
    if chunks.len() == 0 {
        assert(chunks.flatten() =~= Seq::<u8>::empty());
        assert(reads =~= Seq::<ActionView>::empty());
    } else {
        let earlier = chunks.drop_last();
        lemma_reading(earlier, state);
        assert(events.drop_last() =~= arrivals(earlier));
        assert(chunks =~= earlier.push(chunks.last()));
        assert(chunks.flatten() == earlier.flatten() + chunks.last());
        assert(reads =~= Seq::new(earlier.len(), |i: int| ActionView::Read).push(
            ActionView::Read,
        ));
    }
}

/// Every request gets exactly one response. Whatever the request holds and
/// in whatever pieces it arrives, a new session asks to read on for each
/// piece, answers the end of the input with the response to the whole request,
/// and closes when that has been written. The context is then the one that the
/// request leaves behind.
pub proof fn lemma_one_request_one_response(chunks: Seq<Seq<u8>>, state: StateView)
    ensures
        run(
            fresh(),
            arrivals(chunks) + seq![EventView::EndOfInput, EventView::Replied],
            state,
        ) == (Run {
            session: SessionView { phase: Phase::Closed, request: Seq::empty() },
            actions: Seq::new(chunks.len(), |i: int| ActionView::Read) + seq![
                ActionView::Reply(encode_utf8(reply_text(chunks.flatten(), state))),
                ActionView::Close,
            ],
            state: state_served(chunks.flatten(), state),
        }),
{
    let whole = arrivals(chunks) + seq![EventView::EndOfInput, EventView::Replied];
    let served = arrivals(chunks).push(EventView::EndOfInput);
    let reads = Seq::new(chunks.len(), |i: int| ActionView::Read);
    let reply = ActionView::Reply(encode_utf8(reply_text(chunks.flatten(), state)));
    lemma_reading(chunks, state);
    assert(served.drop_last() =~= arrivals(chunks));
    assert(served.last() == EventView::EndOfInput);
    let at_reply = run(fresh(), served, state);
    assert(at_reply.session.phase == Phase::Replying);
    assert(at_reply.actions == reads.push(reply));
    assert(whole.drop_last() =~= served);
    assert(whole.last() == EventView::Replied);
    assert(reads.push(reply).push(ActionView::Close) =~= reads + seq![reply, ActionView::Close]);
}

/// Whatever happens on a connection, and in whatever order, a session that
/// started new asks for one action per event, and these actions are reads,
/// then at most one response, then nothing but closing: no response follows a
/// response, and the connection is never closed before it got one.
pub proof fn lemma_one_reply_at_most(events: Seq<EventView>, state: StateView)
    ensures
        ({
            let actions = run(fresh(), events, state).actions;
            &&& actions.len() == events.len()
            &&& forall|i: int, j: int|
                0 <= i < j < actions.len() && actions[i] is Reply ==> actions[j] is Close
            &&& forall|i: int, j: int|
                0 <= i < j < actions.len() && !(actions[i] is Read) ==> !(actions[j] is Read)
            &&& forall|j: int|
                0 <= j < actions.len() && actions[j] is Close ==> exists|i: int|
                    0 <= i < j && actions[i] is Reply
        }),
{
    lemma_shape(events, state);
}

/// Where a run from a new session stands, and the shape of what it asked for.
proof fn lemma_shape(events: Seq<EventView>, state: StateView)
    ensures
        ({
            let end = run(fresh(), events, state);
            let actions = end.actions;
            &&& actions.len() == events.len()
            &&& end.session.phase == Phase::Reading ==> forall|i: int|
                0 <= i < actions.len() ==> actions[i] is Read
            &&& end.session.phase == Phase::Replying ==> actions.len() > 0 && actions.last() is Reply
                && forall|i: int| 0 <= i < actions.len() - 1 ==> actions[i] is Read
            &&& end.session.phase == Phase::Closed ==> exists|k: int|
                0 <= k < actions.len() && replied_at(actions, k)
            &&& forall|i: int, j: int|
                0 <= i < j < actions.len() && actions[i] is Reply ==> actions[j] is Close
            &&& forall|i: int, j: int|
                0 <= i < j < actions.len() && !(actions[i] is Read) ==> !(actions[j] is Read)
            &&& forall|j: int|
                0 <= j < actions.len() && actions[j] is Close ==> exists|i: int|
                    0 <= i < j && actions[i] is Reply
        }),
    decreases events.len(),
{
    if events.len() > 0 {
        let before = run(fresh(), events.drop_last(), state);
        let end = run(fresh(), events, state);
        let n = before.actions.len() as int;
        lemma_shape(events.drop_last(), state);
        assert forall|i: int| 0 <= i < n implies end.actions[i] == before.actions[i] by {}
        match before.session.phase {
            Phase::Reading => {},
            Phase::Replying => {
                assert(replied_at(end.actions, n - 1));
                assert(end.actions[n - 1] is Reply);
            },
            Phase::Closed => {
                let k = choose|k: int| 0 <= k < n && replied_at(before.actions, k);
                assert(replied_at(end.actions, k));
                assert(end.actions[k] is Reply);
            },
        }
    }
}

/// Whether the one response of `actions` stands at `k`: reads come before it
/// and nothing but closing after it.
spec fn replied_at(actions: Seq<ActionView>, k: int) -> bool {
    &&& 0 <= k < actions.len()
    &&& actions[k] is Reply
    &&& forall|i: int| 0 <= i < k ==> actions[i] is Read
    &&& forall|i: int| k < i < actions.len() ==> actions[i] is Close
}

} // verus!
