use jsi_daemon::listener::{
    BindError, Fatal, Listener, ListenerAction, ListenerEvent, ListenerPhase,
};

fn course(events: &[ListenerEvent]) -> (ListenerPhase, Vec<ListenerAction>) {
    let mut listener = Listener::new();
    let mut actions = Vec::new();
    for event in events {
        actions.push(listener.step(*event));
    }
    (listener.phase(), actions)
}

#[test]
fn new_listener_is_binding() {
    assert_eq!(Listener::new().phase(), ListenerPhase::Binding);
}

#[test]
fn free_path_is_bound_and_clients_are_served() {
    let (phase, actions) = course(&[
        ListenerEvent::Bound,
        ListenerEvent::Accepted,
        ListenerEvent::Accepted,
        ListenerEvent::Accepted,
    ]);
    assert_eq!(phase, ListenerPhase::Accepting);
    assert_eq!(
        actions,
        vec![
            ListenerAction::Accept,
            ListenerAction::Serve,
            ListenerAction::Serve,
            ListenerAction::Serve,
        ]
    );
}

#[test]
fn live_daemon_makes_the_second_one_give_up() {
    let (phase, actions) = course(&[ListenerEvent::InUse, ListenerEvent::Answered]);
    let reason = Fatal::Bind(BindError::AlreadyRunning);
    assert_eq!(phase, ListenerPhase::Stopped(reason));
    assert_eq!(actions, vec![ListenerAction::Probe, ListenerAction::Stop(reason)]);
}

#[test]
fn stale_socket_is_removed_and_bound_again() {
    let (phase, actions) = course(&[
        ListenerEvent::InUse,
        ListenerEvent::Refused,
        ListenerEvent::Cleared,
        ListenerEvent::Bound,
        ListenerEvent::Accepted,
    ]);
    assert_eq!(phase, ListenerPhase::Accepting);
    assert_eq!(
        actions,
        vec![
            ListenerAction::Probe,
            ListenerAction::Clear,
            ListenerAction::Bind,
            ListenerAction::Accept,
            ListenerAction::Serve,
        ]
    );
}

#[test]
fn path_taken_again_after_clearing_is_a_live_daemon() {
    let (phase, actions) = course(&[
        ListenerEvent::InUse,
        ListenerEvent::Refused,
        ListenerEvent::Cleared,
        ListenerEvent::InUse,
    ]);
    let reason = Fatal::Bind(BindError::AlreadyRunning);
    assert_eq!(phase, ListenerPhase::Stopped(reason));
    assert_eq!(actions[3], ListenerAction::Stop(reason));
}

#[test]
fn failures_before_accepting_are_bind_errors() {
    let reason = Fatal::Bind(BindError::Unavailable);
    let courses: [&[ListenerEvent]; 6] = [
        &[ListenerEvent::Failed],
        &[ListenerEvent::InUse, ListenerEvent::Failed],
        &[ListenerEvent::InUse, ListenerEvent::Refused, ListenerEvent::Failed],
        &[
            ListenerEvent::InUse,
            ListenerEvent::Refused,
            ListenerEvent::Cleared,
            ListenerEvent::Failed,
        ],
        &[ListenerEvent::Accepted],
        &[ListenerEvent::InUse, ListenerEvent::Cleared],
    ];
    for events in courses {
        let (phase, actions) = course(events);
        assert_eq!(phase, ListenerPhase::Stopped(reason));
        assert_eq!(actions[actions.len() - 1], ListenerAction::Stop(reason));
    }
}

#[test]
fn failed_accept_is_fatal() {
    let (phase, actions) =
        course(&[ListenerEvent::Bound, ListenerEvent::Accepted, ListenerEvent::Failed]);
    assert_eq!(phase, ListenerPhase::Stopped(Fatal::Accept));
    assert_eq!(actions[2], ListenerAction::Stop(Fatal::Accept));
}

#[test]
fn stopped_listener_keeps_its_reason() {
    let (phase, actions) = course(&[
        ListenerEvent::Bound,
        ListenerEvent::Failed,
        ListenerEvent::Bound,
        ListenerEvent::Accepted,
        ListenerEvent::InUse,
    ]);
    assert_eq!(phase, ListenerPhase::Stopped(Fatal::Accept));
    for action in &actions[1..] {
        assert_eq!(*action, ListenerAction::Stop(Fatal::Accept));
    }
}

#[test]
fn socket_file_is_removed_only_after_a_refused_connection() {
    let events = [
        ListenerEvent::Bound,
        ListenerEvent::InUse,
        ListenerEvent::Answered,
        ListenerEvent::Refused,
        ListenerEvent::Cleared,
        ListenerEvent::Accepted,
        ListenerEvent::Failed,
    ];
    for first in events {
        for second in events {
            for third in events {
                let (_, actions) = course(&[first, second, third]);
                for (i, action) in actions.iter().enumerate() {
                    if *action == ListenerAction::Clear {
                        assert_eq!(i, 1);
                        assert_eq!(first, ListenerEvent::InUse);
                        assert_eq!(second, ListenerEvent::Refused);
                    }
                }
            }
        }
    }
}
