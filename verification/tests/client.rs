use jsi_daemon::client::{answered, begin, failed, join, resolved, ClientAction, Mode};
use jsi_daemon::endpoint::{server_home, socket_path};

fn words(list: &[&str]) -> Vec<String> {
    list.iter().map(|word| word.to_string()).collect()
}

#[test]
fn no_arguments_is_a_usage_failure() {
    let action = begin("jsi", &[], Mode::File);
    assert_eq!(action, ClientAction::Fail("Usage: jsi <path/to/file.smt2>".to_string()));
    assert_eq!(action.exit_status(), Some(1));
}

#[test]
fn no_arguments_is_a_usage_failure_for_commands_too() {
    let action = begin("./target/jsi-client", &[], Mode::Command);
    assert_eq!(action, ClientAction::Fail("Usage: ./target/jsi-client <command>".to_string()));
    assert_eq!(action.exit_status(), Some(1));
}

#[test]
fn nonexistent_path_is_a_failure_without_connection() {
    let first = begin("jsi", &words(&["/no/such/file.smt2"]), Mode::File);
    assert_eq!(first, ClientAction::Resolve("/no/such/file.smt2".to_string()));
    let action = resolved("/no/such/file.smt2", None);
    assert_eq!(
        action,
        ClientAction::Fail("Error: file not found: /no/such/file.smt2".to_string())
    );
    assert_eq!(action.exit_status(), Some(1));
}

#[test]
fn resolved_path_is_sent() {
    let action = resolved("p.smt2", Some("/home/ann/p.smt2".to_string()));
    assert_eq!(action, ClientAction::Send("/home/ann/p.smt2".to_string()));
    assert_eq!(action.exit_status(), None);
}

#[test]
fn arguments_are_joined_by_single_spaces() {
    assert_eq!(join(&words(&["load", "/tmp/a.smt2"])), "load /tmp/a.smt2");
    assert_eq!(join(&words(&["ping"])), "ping");
    assert_eq!(join(&[]), "");
    assert_eq!(join(&words(&["a", "", "b"])), "a  b");
    assert_eq!(join(&words(&["a b", " c"])), "a b  c");
}

#[test]
fn command_mode_sends_the_joined_arguments() {
    let action = begin("jsi", &words(&["load", "/tmp/a.smt2"]), Mode::Command);
    assert_eq!(action, ClientAction::Send("load /tmp/a.smt2".to_string()));
    assert_eq!(action.exit_status(), None);
}

#[test]
fn file_mode_resolves_the_joined_arguments() {
    let action = begin("jsi", &words(&["my", "file.smt2"]), Mode::File);
    assert_eq!(action, ClientAction::Resolve("my file.smt2".to_string()));
    assert_eq!(action.exit_status(), None);
}

#[test]
fn response_is_printed_with_its_time() {
    let action = answered("pong", "1.5ms");
    assert_eq!(action, ClientAction::Succeed("pong\n; response time: 1.5ms\n".to_string()));
    assert_eq!(action.exit_status(), Some(0));
}

#[test]
fn empty_response_is_printed_as_an_empty_line() {
    let action = answered("", "20µs");
    assert_eq!(action, ClientAction::Succeed("\n; response time: 20µs\n".to_string()));
}

#[test]
fn connection_error_is_a_failure() {
    let action = failed("Connection refused (os error 111)");
    assert_eq!(
        action,
        ClientAction::Fail("Error: Connection refused (os error 111)".to_string())
    );
    assert_eq!(action.exit_status(), Some(1));
}

#[test]
fn socket_is_below_the_home_directory() {
    assert_eq!(server_home(b"/home/ann"), b"/home/ann/.jsi/daemon".to_vec());
    assert_eq!(socket_path(b"/home/ann"), b"/home/ann/.jsi/daemon/server.sock".to_vec());
}

#[test]
fn home_that_ends_in_a_separator_gets_no_second_one() {
    assert_eq!(socket_path(b"/home/ann/"), b"/home/ann/.jsi/daemon/server.sock".to_vec());
    assert_eq!(socket_path(b"/"), b"/.jsi/daemon/server.sock".to_vec());
    assert_eq!(socket_path(b"/home/ann//"), b"/home/ann//.jsi/daemon/server.sock".to_vec());
}

#[test]
fn empty_home_gives_a_relative_path() {
    assert_eq!(server_home(b""), b".jsi/daemon".to_vec());
    assert_eq!(socket_path(b""), b".jsi/daemon/server.sock".to_vec());
}

#[test]
fn home_that_is_not_text_is_kept_byte_for_byte() {
    assert_eq!(
        socket_path(&[0x2f, 0xff, 0xfe]),
        [&[0x2f, 0xff, 0xfe][..], b"/.jsi/daemon/server.sock"].concat()
    );
}

#[test]
fn socket_path_is_what_the_path_type_of_std_builds() {
    for home in ["/home/ann", "/home/ann/", "/", "", "rel", "a b/"] {
        let mut path = std::path::PathBuf::from(home);
        path.push(".jsi");
        path.push("daemon");
        assert_eq!(Some(path.to_str().unwrap().as_bytes()), Some(&server_home(home.as_bytes())[..]));
        let socket = path.join("server.sock");
        assert_eq!(socket.to_str().unwrap().as_bytes(), &socket_path(home.as_bytes())[..]);
    }
}
