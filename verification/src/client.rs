//! What the command-line client decides.
//!
//! The client comes in two forms. One forwards its arguments, joined by single
//! spaces, as the command. The other takes its arguments for the path of a
//! file, has the path made absolute, and sends that. Either way the client
//! itself reads the arguments, resolves paths, connects and prints; here is
//! what it does in between.
use vstd::prelude::*;
use vstd::string::*;

verus! {

/// The two forms of the client.
#[derive(Debug, Clone, Copy, PartialEq, Eq)]
pub enum Mode {
    /// The arguments are the command.
    Command,
    /// The arguments are the path of a file to load.
    File,
}

/// What the client is to do next.
#[derive(Debug, PartialEq, Eq)]
pub enum ClientAction {
    /// Make this path absolute, following links, and come back with
    /// [`resolved`].
    Resolve(String),
    /// Connect to the daemon's socket, write this command, shut down the write
    /// side, read the response to its end, and come back with [`answered`],
    /// or with [`failed`] if any of this fails.
    Send(String),
    /// Print this on standard output and exit with status 0.
    Succeed(String),
    /// Print this line on standard error and exit with status 1, without
    /// connecting to anything.
    Fail(String),
}

/// A [`ClientAction`] as contracts see it.
pub enum ClientActionView {
    Resolve(Seq<char>),
    Send(Seq<char>),
    Succeed(Seq<char>),
    Fail(Seq<char>),
}

impl View for ClientAction {
    type V = ClientActionView;

    open spec fn view(&self) -> ClientActionView {
        match self {
            ClientAction::Resolve(path) => ClientActionView::Resolve(path@),
            ClientAction::Send(command) => ClientActionView::Send(command@),
            ClientAction::Succeed(output) => ClientActionView::Succeed(output@),
            ClientAction::Fail(message) => ClientActionView::Fail(message@),
        }
    }
}

impl ClientAction {
    /// The status with which the client exits, where the action ends it.
    pub fn exit_status(&self) -> (status: Option<i32>)
        ensures
            status == match self@ {
                ClientActionView::Succeed(_) => Some(0i32),
                ClientActionView::Fail(_) => Some(1i32),
                _ => None,
            },
    {
        match self {
            ClientAction::Succeed(_) => Some(0),
            ClientAction::Fail(_) => Some(1),
            _ => None,
        }
    }
}

/// The characters of each of `words`.
pub open spec fn texts(words: Seq<String>) -> Seq<Seq<char>> {
    Seq::new(words.len(), |i: int| words[i]@)
}

/// `words` in a row, with one space between each two of them.
pub open spec fn joined(words: Seq<Seq<char>>) -> Seq<char>
    decreases words.len(),
{
    if words.len() == 0 {
        Seq::empty()
    } else if words.len() == 1 {
        words[0]
    } else {
        joined(words.drop_last()) + seq![' '] + words.last()
    }
}

/// The line that tells how a client of this form is called.
pub open spec fn usage_of(program: Seq<char>, mode: Mode) -> Seq<char> {
    match mode {
        Mode::Command => "Usage: "@ + program + " <command>"@,
        Mode::File => "Usage: "@ + program + " <path/to/file.smt2>"@,
    }
}

/// What a client does first.
pub open spec fn first_action(program: Seq<char>, words: Seq<Seq<char>>, mode: Mode)
    -> ClientActionView {
    if words.len() == 0 {
        ClientActionView::Fail(usage_of(program, mode))
    } else {
        match mode {
            Mode::Command => ClientActionView::Send(joined(words)),
            Mode::File => ClientActionView::Resolve(joined(words)),
        }
    }
}

/// What the client does once the path is resolved, or is found to lead to
/// nothing.
pub open spec fn action_on_path(requested: Seq<char>, absolute: Option<Seq<char>>)
    -> ClientActionView {
    match absolute {
        Some(path) => ClientActionView::Send(path),
        None => ClientActionView::Fail("Error: file not found: "@ + requested),
    }
}

/// What the client prints for a response that took `elapsed` to come.
pub open spec fn report_of(response: Seq<char>, elapsed: Seq<char>) -> Seq<char> {
    response + "\n; response time: "@ + elapsed + "\n"@
}

/// The line that tells why the exchange with the daemon failed.
pub open spec fn failure_of(reason: Seq<char>) -> Seq<char> {
    "Error: "@ + reason
}

/// Joins `words` with single spaces.
pub fn join(words: &[String]) -> (line: String)
    ensures
        line@ == joined(texts(words@)),
{
    let mut line = String::new();
    let mut i: usize = 0;
    while i < words.len()
        invariant
            i <= words.len(),
            line@ == joined(texts(words@).take(i as int)),
        decreases words.len() - i,
    {
        if i > 0 {
            line.append(" ");
        }
        line.append(words[i].as_str());
        proof {
            reveal_strlit(" ");
            let now = texts(words@).take(i + 1);
            assert(now.drop_last() =~= texts(words@).take(i as int));
            assert(now.last() == words@[i as int]@);
            assert(" "@ =~= seq![' ']);
            if i == 0 {
                assert(line@ =~= now[0]);
            }
        }
        i += 1;
    }
    assert(texts(words@).take(i as int) =~= texts(words@));
    line
}

/// Decides what a client does that was called as `program` with `words`
/// behind it. Without words it prints how it is called and fails. Otherwise
/// the words, joined by single spaces, are the command to send or the path to
/// resolve.
pub fn begin(program: &str, words: &[String], mode: Mode) -> (action: ClientAction)
    ensures
        action@ == first_action(program@, texts(words@), mode),
{
    if words.len() == 0 {
        let tail = match mode {
            Mode::Command => " <command>",
            Mode::File => " <path/to/file.smt2>",
        };
        ClientAction::Fail("Usage: ".to_owned().concat(program).concat(tail))
    } else {
        match mode {
            Mode::Command => ClientAction::Send(join(words)),
            Mode::File => ClientAction::Resolve(join(words)),
        }
    }
}

/// Decides what follows the resolving of `requested`: its absolute path is
/// sent as the command, and a path that leads to no file ends the client
/// before it connects.
pub fn resolved(requested: &str, absolute: Option<String>) -> (action: ClientAction)
    ensures
        action@ == action_on_path(
            requested@,
            match absolute {
                Some(path) => Some(path@),
                None => None,
            },
        ),
{
    match absolute {
        Some(path) => ClientAction::Send(path),
        None => ClientAction::Fail("Error: file not found: ".to_owned().concat(requested)),
    }
}

/// Ends the client that got `response`: it prints the response and, on a
/// line of its own, the time that the response took. `elapsed` is that time
/// as it is to be shown.
pub fn answered(response: &str, elapsed: &str) -> (action: ClientAction)
    ensures
        action@ == ClientActionView::Succeed(report_of(response@, elapsed@)),
{
    ClientAction::Succeed(
        response.to_owned().concat("\n; response time: ").concat(elapsed).concat("\n"),
    )
}

/// Ends the client that could not reach the daemon, or lost it on the way:
/// it says why and fails. It does not try again.
pub fn failed(reason: &str) -> (action: ClientAction)
    ensures
        action@ == ClientActionView::Fail(failure_of(reason@)),
{
    ClientAction::Fail("Error: ".to_owned().concat(reason))
}

} // verus!
