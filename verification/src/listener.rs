//! Taking the socket path and accepting connections on it.
//!
//! A daemon that finds its path taken must tell a socket file that a crashed
//! daemon left behind from one on which a live daemon listens. It asks the
//! path: it connects to it. If somebody answers, a daemon is alive and this one
//! gives up; if the connection is refused, the file is stale, and the daemon
//! removes it and binds again. The listener here decides; its owner binds,
//! connects, removes and accepts, and reports how each went.
use vstd::prelude::*;

verus! {

/// Why the daemon could not take its path.
#[derive(Debug, Clone, Copy, PartialEq, Eq)]
pub enum BindError {
    /// A live daemon listens on the path.
    AlreadyRunning,
    /// The path could not be bound, asked or cleared.
    Unavailable,
}

/// What ends a listener. Nothing else does.
#[derive(Debug, Clone, Copy, PartialEq, Eq)]
pub enum Fatal {
    /// The path could not be taken.
    Bind(BindError),
    /// Accepting a connection failed.
    Accept,
}

/// Where a listener stands.
#[derive(Debug, Clone, Copy, PartialEq, Eq)]
pub enum ListenerPhase {
    /// The first attempt to bind the path is under way.
    Binding,
    /// The path was taken; a connection to it is being tried.
    Probing,
    /// The stale socket file is being removed.
    Clearing,
    /// The second attempt to bind the path is under way.
    Rebinding,
    /// The path is bound and connections are accepted.
    Accepting,
    /// The listener has given up, for this reason.
    Stopped(Fatal),
}

/// How the last thing that the listener asked for went.
#[derive(Debug, Clone, Copy, PartialEq, Eq)]
pub enum ListenerEvent {
    /// The path is bound.
    Bound,
    /// Binding failed because the path is in use.
    InUse,
    /// Somebody accepted the connection to the path.
    Answered,
    /// Nobody listens on the path: the connection was refused.
    Refused,
    /// The socket file is removed.
    Cleared,
    /// A client has connected.
    Accepted,
    /// What was asked for failed in some other way.
    Failed,
}

/// What the listener's owner is to do next.
#[derive(Debug, Clone, Copy, PartialEq, Eq)]
pub enum ListenerAction {
    /// Bind the path.
    Bind,
    /// Connect to the path, and close the connection if there is one.
    Probe,
    /// Remove the socket file at the path.
    Clear,
    /// Wait for a client.
    Accept,
    /// Hand the new connection to a session of its own, without waiting for
    /// that session, and wait for the next client.
    Serve,
    /// Give up.
    Stop(Fatal),
}

/// A phase with the action that leads into it.
pub struct Turn {
    pub phase: ListenerPhase,
    pub action: ListenerAction,
}

/// The failure that stops a listener in `phase` when what it asked for goes
/// wrong; a listener that has given up keeps its reason.
pub open spec fn failure_in(phase: ListenerPhase) -> Fatal {
    match phase {
        ListenerPhase::Accepting => Fatal::Accept,
        ListenerPhase::Stopped(reason) => reason,
        _ => Fatal::Bind(BindError::Unavailable),
    }
}

/// The turn that gives up for `reason`.
pub open spec fn stop(reason: Fatal) -> Turn {
    Turn { phase: ListenerPhase::Stopped(reason), action: ListenerAction::Stop(reason) }
}

/// What a listener in `phase` does when `event` is reported.
pub open spec fn turn_of(phase: ListenerPhase, event: ListenerEvent) -> Turn {
    match (phase, event) {
        (ListenerPhase::Binding, ListenerEvent::Bound) => Turn {
            phase: ListenerPhase::Accepting,
            action: ListenerAction::Accept,
        },
        (ListenerPhase::Binding, ListenerEvent::InUse) => Turn {
            phase: ListenerPhase::Probing,
            action: ListenerAction::Probe,
        },
        (ListenerPhase::Probing, ListenerEvent::Answered) => stop(
            Fatal::Bind(BindError::AlreadyRunning),
        ),
        (ListenerPhase::Probing, ListenerEvent::Refused) => Turn {
            phase: ListenerPhase::Clearing,
            action: ListenerAction::Clear,
        },
        (ListenerPhase::Clearing, ListenerEvent::Cleared) => Turn {
            phase: ListenerPhase::Rebinding,
            action: ListenerAction::Bind,
        },
        (ListenerPhase::Rebinding, ListenerEvent::Bound) => Turn {
            phase: ListenerPhase::Accepting,
            action: ListenerAction::Accept,
        },
        (ListenerPhase::Rebinding, ListenerEvent::InUse) => stop(
            Fatal::Bind(BindError::AlreadyRunning),
        ),
        (ListenerPhase::Accepting, ListenerEvent::Accepted) => Turn {
            phase: ListenerPhase::Accepting,
            action: ListenerAction::Serve,
        },
        _ => stop(failure_in(phase)),
    }
}

/// The listener of a daemon.
pub struct Listener {
    phase: ListenerPhase,
}

impl View for Listener {
    type V = ListenerPhase;

    closed spec fn view(&self) -> ListenerPhase {
        self.phase
    }
}

impl Listener {
    /// The listener of a daemon that starts. The first thing to do is to bind
    /// the path.
    pub fn new() -> (listener: Listener)
        ensures
            listener@ == ListenerPhase::Binding,
    {
        Listener { phase: ListenerPhase::Binding }
    }

    /// Where the listener stands.
    pub fn phase(&self) -> (phase: ListenerPhase)
        ensures
            phase == self@,
    {
        self.phase
    }

    /// Takes note of how the last action went and says what to do next.
    pub fn step(&mut self, event: ListenerEvent) -> (action: ListenerAction)
        ensures
            final(self)@ == turn_of(old(self)@, event).phase,
            action == turn_of(old(self)@, event).action,
    {
        let (phase, action) = match (self.phase, event) {
            (ListenerPhase::Binding, ListenerEvent::Bound)
            | (ListenerPhase::Rebinding, ListenerEvent::Bound) => (
                ListenerPhase::Accepting,
                ListenerAction::Accept,
            ),
            (ListenerPhase::Binding, ListenerEvent::InUse) => (
                ListenerPhase::Probing,
                ListenerAction::Probe,
            ),
            (ListenerPhase::Probing, ListenerEvent::Refused) => (
                ListenerPhase::Clearing,
                ListenerAction::Clear,
            ),
            (ListenerPhase::Clearing, ListenerEvent::Cleared) => (
                ListenerPhase::Rebinding,
                ListenerAction::Bind,
            ),
            (ListenerPhase::Accepting, ListenerEvent::Accepted) => (
                ListenerPhase::Accepting,
                ListenerAction::Serve,
            ),
            (phase, event) => {
                let reason = match (phase, event) {
                    (ListenerPhase::Probing, ListenerEvent::Answered)
                    | (ListenerPhase::Rebinding, ListenerEvent::InUse) => Fatal::Bind(
                        BindError::AlreadyRunning,
                    ),
                    (ListenerPhase::Accepting, _) => Fatal::Accept,
                    (ListenerPhase::Stopped(reason), _) => reason,
                    _ => Fatal::Bind(BindError::Unavailable),
                };
                (ListenerPhase::Stopped(reason), ListenerAction::Stop(reason))
            },
        };
        self.phase = phase;
        action
    }
}

/// What a run of events has made of a listener.
pub struct Course {
    pub phase: ListenerPhase,
    /// The actions that were asked for, one for each event.
    pub actions: Seq<ListenerAction>,
}

/// The turns that `events` make a listener take, one after another.
pub open spec fn course(phase: ListenerPhase, events: Seq<ListenerEvent>) -> Course
    decreases events.len(),
{
    if events.len() == 0 {
        Course { phase, actions: Seq::empty() }
    } else {
        let before = course(phase, events.drop_last());
        let last = turn_of(before.phase, events.last());
        Course { phase: last.phase, actions: before.actions.push(last.action) }
    }
}

/// A live daemon is never pushed aside. Whatever is reported to a listener
/// that starts, it asks to remove the socket file at most once, and only
/// when the path was in use and the connection to it was refused just before;
/// and it gives up over a daemon that is alive only when a connection to the
/// path was answered, or when the path was taken again after the file had
/// been removed.
pub proof fn lemma_live_daemon_stays(events: Seq<ListenerEvent>)
    ensures
        ({
            let actions = course(ListenerPhase::Binding, events).actions;
            &&& actions.len() == events.len()
            &&& forall|i: int|
                0 <= i < actions.len() && actions[i] == ListenerAction::Clear ==> i == 1
                    && events[0] == ListenerEvent::InUse && events[1] == ListenerEvent::Refused
            &&& forall|i: int|
                0 <= i < actions.len() && actions[i] == ListenerAction::Stop(
                    Fatal::Bind(BindError::AlreadyRunning),
                ) ==> i >= 1 && events[0] == ListenerEvent::InUse && (events[1]
                    == ListenerEvent::Answered || i >= 3 && events[3] == ListenerEvent::InUse)
        }),
{
    lemma_course(events);
}

/// A listener that has bound its path serves every client that connects and
/// goes on accepting, for as long as accepting does not fail.
pub proof fn lemma_accepts_on(clients: nat)
    ensures
        course(ListenerPhase::Accepting, Seq::new(clients, |i: int| ListenerEvent::Accepted)) == (
        Course {
            phase: ListenerPhase::Accepting,
            actions: Seq::new(clients, |i: int| ListenerAction::Serve),
        }),
    decreases clients,
{
    let events = Seq::new(clients, |i: int| ListenerEvent::Accepted);
    let serves = Seq::new(clients, |i: int| ListenerAction::Serve);
    if clients == 0 {
        assert(serves =~= Seq::<ListenerAction>::empty());
    } else {
        let fewer = (clients - 1) as nat;
        lemma_accepts_on(fewer);
        assert(events.drop_last() =~= Seq::new(fewer, |i: int| ListenerEvent::Accepted));
        assert(serves =~= Seq::new(fewer, |i: int| ListenerAction::Serve).push(
            ListenerAction::Serve,
        ));
    }
}

/// Where a listener that started stands after `events`, by their number.
proof fn lemma_course(events: Seq<ListenerEvent>)
    ensures
        ({
            let end = course(ListenerPhase::Binding, events);
            let actions = end.actions;
            &&& actions.len() == events.len()
            &&& on_course(end.phase, events)
            &&& forall|i: int|
                0 <= i < actions.len() && actions[i] == ListenerAction::Clear ==> i == 1
                    && events[0] == ListenerEvent::InUse && events[1] == ListenerEvent::Refused
            &&& forall|i: int|
                0 <= i < actions.len() && actions[i] == ListenerAction::Stop(
                    Fatal::Bind(BindError::AlreadyRunning),
                ) ==> i >= 1 && events[0] == ListenerEvent::InUse && (events[1]
                    == ListenerEvent::Answered || i >= 3 && events[3] == ListenerEvent::InUse)
        }),
    decreases events.len(),
{
    if events.len() > 0 {
        let before = course(ListenerPhase::Binding, events.drop_last());
        let end = course(ListenerPhase::Binding, events);
        let n = before.actions.len() as int;
        lemma_course(events.drop_last());
        assert forall|i: int| 0 <= i < n implies end.actions[i] == before.actions[i]
            && events[i] == events.drop_last()[i] by {}
    }
}

/// What the phase of a listener that started tells of the events so far.
spec fn on_course(phase: ListenerPhase, events: Seq<ListenerEvent>) -> bool {
    let begun_in_use = events.len() >= 1 && events[0] == ListenerEvent::InUse;
    match phase {
        ListenerPhase::Binding => events.len() == 0,
        ListenerPhase::Probing => events.len() == 1 && begun_in_use,
        ListenerPhase::Clearing => events.len() == 2 && begun_in_use && events[1]
            == ListenerEvent::Refused,
        ListenerPhase::Rebinding => events.len() == 3 && begun_in_use && events[1]
            == ListenerEvent::Refused,
        ListenerPhase::Accepting => events.len() >= 1,
        ListenerPhase::Stopped(reason) => events.len() >= 1 && (reason == Fatal::Bind(
            BindError::AlreadyRunning,
        ) ==> events.len() >= 2 && begun_in_use && (events[1] == ListenerEvent::Answered
            || events.len() >= 4 && events[3] == ListenerEvent::InUse)),
    }
}

} // verus!
