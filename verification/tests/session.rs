use jsi_daemon::session::{Action, Event, Phase, Session};
use jsi_daemon::state::DaemonState;
use jsi_daemon::wire::{decode, encode, respond, RequestError};

fn exchange(state: &mut DaemonState, chunks: &[&[u8]]) -> Vec<Action> {
    let mut session = Session::new();
    let mut actions = Vec::new();
    for chunk in chunks {
        actions.push(session.step(Event::Received(chunk.to_vec()), state));
    }
    actions.push(session.step(Event::EndOfInput, state));
    actions.push(session.step(Event::Replied, state));
    assert_eq!(session.phase(), Phase::Closed);
    actions
}

#[test]
fn decode_takes_text_and_refuses_other_bytes() {
    assert_eq!(decode(b"ping"), Ok("ping"));
    assert_eq!(decode(b""), Ok(""));
    assert_eq!(decode("über".as_bytes()), Ok("über"));
    assert_eq!(decode(&[0x70, 0xff, 0x6e]), Err(RequestError::MalformedInput));
    assert_eq!(decode(&[0xc3]), Err(RequestError::MalformedInput));
    assert_eq!(decode(&[0xc0, 0xaf]), Err(RequestError::MalformedInput));
    assert_eq!(decode(&[0xed, 0xa0, 0x80]), Err(RequestError::MalformedInput));
    assert_eq!(decode(&[0xf4, 0x90, 0x80, 0x80]), Err(RequestError::MalformedInput));
}

#[test]
fn encode_gives_the_bytes_of_the_text() {
    assert_eq!(encode("pong"), b"pong".to_vec());
    assert_eq!(encode(""), Vec::<u8>::new());
    assert_eq!(encode("é"), vec![0xc3, 0xa9]);
}

#[test]
fn request_errors_have_their_messages() {
    assert_eq!(RequestError::MalformedInput.message(), "error: malformed input");
    assert_eq!(RequestError::ReadFailed.message(), "error: request could not be read");
}

#[test]
fn respond_serves_a_whole_request() {
    let mut state = DaemonState::new();
    assert_eq!(respond(b"ping", &mut state), b"pong".to_vec());
    assert_eq!(respond(b"load /tmp/a.smt2\n", &mut state), b"loaded /tmp/a.smt2".to_vec());
    assert_eq!(state.loaded(), Some("/tmp/a.smt2"));
    assert_eq!(respond(b"", &mut state), b"error: no command".to_vec());
}

#[test]
fn respond_answers_bytes_that_are_not_text() {
    let mut state = DaemonState::new();
    respond(b"load /tmp/a.smt2", &mut state);
    assert_eq!(respond(&[0x72, 0x65, 0x73, 0x65, 0x74, 0x80], &mut state), b"error: malformed input".to_vec());
    assert_eq!(state.loaded(), Some("/tmp/a.smt2"));
}

#[test]
fn new_session_is_reading() {
    assert_eq!(Session::new().phase(), Phase::Reading);
}

#[test]
fn ping_gets_pong_and_the_connection_closes() {
    let mut state = DaemonState::new();
    let actions = exchange(&mut state, &[b"ping"]);
    assert_eq!(actions, vec![Action::Read, Action::Reply(b"pong".to_vec()), Action::Close]);
}

#[test]
fn every_command_gets_exactly_one_response() {
    let commands: [&[u8]; 8] = [
        b"ping",
        b"status",
        b"reset",
        b"load /tmp/a.smt2",
        b"/tmp/a.smt2",
        b"load",
        b"what is this",
        &[0xff, 0xfe],
    ];
    for command in commands {
        let mut state = DaemonState::new();
        let actions = exchange(&mut state, &[command]);
        assert_eq!(actions.len(), 3);
        assert_eq!(actions[0], Action::Read);
        assert!(matches!(actions[1], Action::Reply(_)));
        assert_eq!(actions[2], Action::Close);
    }
}

#[test]
fn request_in_pieces_is_served_whole() {
    let mut state = DaemonState::new();
    let actions = exchange(&mut state, &[b"lo", b"", b"ad /tmp/", b"a.smt2"]);
    assert_eq!(
        actions,
        vec![
            Action::Read,
            Action::Read,
            Action::Read,
            Action::Read,
            Action::Reply(b"loaded /tmp/a.smt2".to_vec()),
            Action::Close,
        ]
    );
    assert_eq!(state.loaded(), Some("/tmp/a.smt2"));
}

#[test]
fn character_cut_in_two_is_put_together() {
    let mut state = DaemonState::new();
    let actions = exchange(&mut state, &[b"load /tmp/\xc3", b"\xa9"]);
    assert_eq!(actions[2], Action::Reply("loaded /tmp/é".as_bytes().to_vec()));
    assert_eq!(state.loaded(), Some("/tmp/é"));
}

#[test]
fn request_of_zero_bytes_is_answered() {
    let mut state = DaemonState::new();
    let actions = exchange(&mut state, &[]);
    assert_eq!(actions, vec![Action::Reply(b"error: no command".to_vec()), Action::Close]);
    assert!(state.is_idle());
}

#[test]
fn failed_read_is_answered_and_not_dispatched() {
    let mut state = DaemonState::new();
    let mut session = Session::new();
    assert_eq!(session.step(Event::Received(b"reset".to_vec()), &mut state), Action::Read);
    state = {
        let mut loaded = DaemonState::new();
        respond(b"load /tmp/a.smt2", &mut loaded);
        loaded
    };
    assert_eq!(
        session.step(Event::ReadFailed, &mut state),
        Action::Reply(b"error: request could not be read".to_vec())
    );
    assert_eq!(session.phase(), Phase::Replying);
    assert_eq!(state.loaded(), Some("/tmp/a.smt2"));
    assert_eq!(session.step(Event::Replied, &mut state), Action::Close);
    assert_eq!(session.phase(), Phase::Closed);
}

#[test]
fn nothing_follows_the_response() {
    let mut state = DaemonState::new();
    let mut session = Session::new();
    session.step(Event::Received(b"load /tmp/a.smt2".to_vec()), &mut state);
    assert!(matches!(session.step(Event::EndOfInput, &mut state), Action::Reply(_)));
    let later = [
        Event::Received(b"reset".to_vec()),
        Event::EndOfInput,
        Event::ReadFailed,
        Event::Replied,
        Event::EndOfInput,
    ];
    for event in later {
        assert_eq!(session.step(event, &mut state), Action::Close);
        assert_eq!(session.phase(), Phase::Closed);
    }
    assert_eq!(state.loaded(), Some("/tmp/a.smt2"));
}

#[test]
fn event_out_of_place_while_reading_is_a_failed_read() {
    let mut state = DaemonState::new();
    let mut session = Session::new();
    assert_eq!(
        session.step(Event::Replied, &mut state),
        Action::Reply(b"error: request could not be read".to_vec())
    );
    assert_eq!(session.phase(), Phase::Replying);
}

#[test]
fn interleaved_sessions_are_served_in_the_order_of_completion() {
    let mut state = DaemonState::new();
    let mut first = Session::new();
    let mut second = Session::new();
    let mut third = Session::new();
    first.step(Event::Received(b"load /tmp/".to_vec()), &mut state);
    second.step(Event::Received(b"load /tmp/b".to_vec()), &mut state);
    third.step(Event::Received(b"status".to_vec()), &mut state);
    first.step(Event::Received(b"a".to_vec()), &mut state);
    assert!(state.is_idle());
    assert_eq!(
        second.step(Event::EndOfInput, &mut state),
        Action::Reply(b"loaded /tmp/b".to_vec())
    );
    assert_eq!(state.loaded(), Some("/tmp/b"));
    assert_eq!(
        first.step(Event::EndOfInput, &mut state),
        Action::Reply(b"loaded /tmp/a".to_vec())
    );
    assert_eq!(state.loaded(), Some("/tmp/a"));
    assert_eq!(
        third.step(Event::EndOfInput, &mut state),
        Action::Reply(b"loaded /tmp/a".to_vec())
    );
    assert_eq!(second.step(Event::Replied, &mut state), Action::Close);
    assert_eq!(state.loaded(), Some("/tmp/a"));
}
