//! Carrying out a command against the daemon's context.
//!
//! Every command gets a response in plain text, and a command that cannot be
//! carried out gets one that starts with `error: `. The responses are:
//!
//! | command            | response                        | context            |
//! |--------------------|---------------------------------|--------------------|
//! | `ping`             | `pong`                          | unchanged          |
//! | `status`           | `idle`, or `loaded <path>`      | unchanged          |
//! | `reset`            | `reset`                         | nothing loaded     |
//! | `load <path>`      | `loaded <path>`                 | `<path>` loaded    |
//! | `/<rest of path>`  | `loaded /<rest of path>`        | that path loaded   |
//! | `load`             | `error: load requires a path`   | unchanged          |
//! | nothing but blanks | `error: no command`             | unchanged          |
//! | anything else      | `error: unknown command: <word>`| unchanged          |
//!
//! `ping`, `status` and `reset` take no argument and pay no heed to what
//! follows them.
use crate::command::{
    lemma_plain_actions, parse, parsed, DispatchError, DispatchErrorView, Request, RequestView,
};
use crate::state::{DaemonState, StateView};
use crate::text::{is_all_blank, lemma_blanks_around, lemma_trimmed_to_nothing};
use vstd::prelude::*;
use vstd::string::*;

verus! {

impl DispatchErrorView {
    /// The response that reports this error.
    pub open spec fn message(self) -> Seq<char> {
        match self {
            DispatchErrorView::NoCommand => "error: no command"@,
            DispatchErrorView::UnknownAction(name) => "error: unknown command: "@ + name,
            DispatchErrorView::MissingPath => "error: load requires a path"@,
        }
    }
}

impl DispatchError {
    /// The response that reports this error.
    pub fn message(&self) -> (text: String)
        ensures
            text@ == self@.message(),
    {
        match self {
            DispatchError::NoCommand => "error: no command".to_owned(),
            DispatchError::UnknownAction(name) => "error: unknown command: ".to_owned().concat(
                name.as_str(),
            ),
            DispatchError::MissingPath => "error: load requires a path".to_owned(),
        }
    }
}

/// The response to a request that is carried out on `state`.
pub open spec fn answer(request: RequestView, state: StateView) -> Seq<char> {
    match request {
        RequestView::Ping => "pong"@,
        RequestView::Status => match state.loaded {
            Some(path) => "loaded "@ + path,
            None => "idle"@,
        },
        RequestView::Reset => "reset"@,
        RequestView::Load(path) => "loaded "@ + path,
    }
}

/// The context that a request leaves behind when it is carried out on `state`.
pub open spec fn state_after(request: RequestView, state: StateView) -> StateView {
    match request {
        RequestView::Ping => state,
        RequestView::Status => state,
        RequestView::Reset => StateView { loaded: None },
        RequestView::Load(path) => StateView { loaded: Some(path) },
    }
}

/// The response to a command that arrives while the context is `state`.
pub open spec fn response_to(command: Seq<char>, state: StateView) -> Seq<char> {
    match parsed(command) {
        Ok(request) => answer(request, state),
        Err(error) => error.message(),
    }
}

/// The context after a command that arrives while the context is `state`.
pub open spec fn state_following(command: Seq<char>, state: StateView) -> StateView {
    match parsed(command) {
        Ok(request) => state_after(request, state),
        Err(_) => state,
    }
}

/// Whether a command leaves every context as it found it.
pub open spec fn is_read_only(command: Seq<char>) -> bool {
    match parsed(command) {
        Ok(RequestView::Reset) => false,
        Ok(RequestView::Load(_)) => false,
        _ => true,
    }
}

/// Carries out one request.
pub fn execute(request: Request, state: &mut DaemonState) -> (response: String)
    ensures
        response@ == answer(request@, old(state)@),
        final(state)@ == state_after(request@, old(state)@),
{
    match request {
        Request::Ping => "pong".to_owned(),
        Request::Status => match state.loaded() {
            Some(path) => "loaded ".to_owned().concat(path),
            None => "idle".to_owned(),
        },
        Request::Reset => {
            state.reset();
            "reset".to_owned()
        },
        Request::Load(path) => {
            let response = "loaded ".to_owned().concat(path.as_str());
            state.load(path);
            response
        },
    }
}

/// Reads a command and carries it out: the one entry through which the
/// context is read or changed. A command that cannot be carried out leaves
/// the context alone and is answered with the text of its error.
pub fn dispatch(command: &str, state: &mut DaemonState) -> (response: String)
    ensures
        response@ == response_to(command@, old(state)@),
        final(state)@ == state_following(command@, old(state)@),
{
    match parse(command) {
        Ok(request) => execute(request, state),
        Err(error) => error.message(),
    }
}

/// The context after a run of commands, each carried out on what the one
/// before it left.
pub open spec fn state_through(commands: Seq<Seq<char>>, state: StateView) -> StateView
    decreases commands.len(),
{
    if commands.len() == 0 {
        state
    } else {
        state_following(commands.last(), state_through(commands.drop_last(), state))
    }
}

/// The read-only commands are those that change no context at all.
pub proof fn lemma_read_only_changes_nothing(command: Seq<char>)
    ensures
        is_read_only(command) <==> forall|state: StateView|
            #[trigger] state_following(command, state) == state,
{
    if !is_read_only(command) {
        let idle = StateView { loaded: None };
        let busy = StateView { loaded: Some(Seq::<char>::empty()) };
        assert(state_following(command, idle) != idle || state_following(command, busy) != busy);
    }
}

/// A command that changes the context sets all of it, whatever it was: what
/// an earlier command made of the context does not show in what a later one
/// leaves, so the context is never a blend of two changes.
pub proof fn lemma_last_change_stands(first: Seq<char>, second: Seq<char>, state: StateView)
    requires
        !is_read_only(second),
    ensures
        state_following(second, state_following(first, state)) == state_following(second, state),
{
}

/// A read-only command that is sent again gets the response it got before,
/// however many read-only commands were carried out in between.
pub proof fn lemma_repeated_query(
    command: Seq<char>,
    between: Seq<Seq<char>>,
    state: StateView,
)
    requires
        is_read_only(command),
        forall|i: int| 0 <= i < between.len() ==> is_read_only(#[trigger] between[i]),
    ensures
        state_through(between, state_following(command, state)) == state,
        response_to(command, state_through(between, state_following(command, state)))
            == response_to(command, state),
    decreases between.len(),
{
    if between.len() > 0 {
        let earlier = between.drop_last();
        assert forall|i: int| 0 <= i < earlier.len() implies is_read_only(
            #[trigger] earlier[i],
        ) by {
            assert(earlier[i] == between[i]);
        }
        lemma_repeated_query(command, earlier, state);
        assert(is_read_only(between.last()));
    }
}

/// A command of no characters, or of blanks only, is answered with
/// `error: no command` and changes nothing; no other command is answered so.
pub proof fn lemma_blank_command(command: Seq<char>, state: StateView)
    ensures
        is_all_blank(command) <==> parsed(command) == Err::<RequestView, DispatchErrorView>(
            DispatchErrorView::NoCommand,
        ),
        is_all_blank(command) ==> response_to(command, state) == "error: no command"@
            && state_following(command, state) == state,
{
    lemma_trimmed_to_nothing(command);
}

/// The mark of a response that reports an error.
pub open spec fn is_error(response: Seq<char>) -> bool {
    "error: "@.is_prefix_of(response)
}

/// A response starts with `error: ` exactly when the command could not be
/// carried out, so a client can tell the two apart without knowing the
/// actions.
pub proof fn lemma_errors_are_marked(command: Seq<char>, state: StateView)
    ensures
        is_error(response_to(command, state)) <==> parsed(command) is Err,
{
    let mark = "error: "@;
    reveal_strlit("error: ");
    reveal_strlit("error: no command");
    reveal_strlit("error: unknown command: ");
    reveal_strlit("error: load requires a path");
    reveal_strlit("pong");
    reveal_strlit("idle");
    reveal_strlit("reset");
    reveal_strlit("loaded ");
    let response = response_to(command, state);
    match parsed(command) {
        Ok(request) => {
            assert(response[0] != 'e');
            if mark.is_prefix_of(response) {
                assert(response.subrange(0, mark.len() as int)[0] == mark[0]);
            }
        },
        Err(error) => {
            assert(response.subrange(0, mark.len() as int) =~= mark);
        },
    }
}

/// Blanks around a command change nothing: with them or without, it is read
/// as the same request, gets the same response and leaves the same context.
/// So a command may end in a line end or not.
pub proof fn lemma_blanks_do_not_count(
    before: Seq<char>,
    command: Seq<char>,
    behind: Seq<char>,
    state: StateView,
)
    requires
        is_all_blank(before),
        is_all_blank(behind),
    ensures
        parsed(before + command + behind) == parsed(command),
        response_to(before + command + behind, state) == response_to(command, state),
        state_following(before + command + behind, state) == state_following(command, state),
{
    lemma_blanks_around(before, command, behind);
}

/// `ping` is answered with `pong`, whatever the context, and leaves it alone.
pub proof fn lemma_ping(state: StateView)
    ensures
        response_to("ping"@, state) == "pong"@,
        state_following("ping"@, state) == state,
        is_read_only("ping"@),
{
    lemma_plain_actions();
}

} // verus!
