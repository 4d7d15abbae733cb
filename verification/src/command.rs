//! From the text of a command to the request it makes.
//!
//! The first word of a command names an action; what follows it, without the
//! blanks around it, is the action's argument. The actions are `ping`,
//! `status`, `reset` and `load <path>`. A command that begins with `/` is a
//! path by itself and asks to load it: a client that resolves a file sends
//! nothing but its absolute path.
use crate::text::{
    after_first_word, first_word, is_blank, lemma_blanks_in_front, lemma_first_word,
    lemma_first_word_is, lemma_leading_blanks, lemma_trimmed_already, lemma_trimmed_end,
    same_text, split_first_word, trim, trim_start, trimmed, trimmed_start, word_len,
};
use vstd::prelude::*;
use vstd::string::*;

verus! {

/// A command that the dispatcher can carry out.
#[derive(Debug, PartialEq, Eq)]
pub enum Request {
    /// Asks whether the daemon is there.
    Ping,
    /// Asks what is loaded.
    Status,
    /// Asks to forget what is loaded.
    Reset,
    /// Asks to load the artifact at this path.
    Load(String),
}

/// Why a command cannot be carried out.
#[derive(Debug, PartialEq, Eq)]
pub enum DispatchError {
    /// The command holds nothing but blanks, or nothing at all.
    NoCommand,
    /// The first word names no action; it is kept as it was written.
    UnknownAction(String),
    /// `load` came without a path.
    MissingPath,
}

/// A [`Request`] as contracts see it.
pub enum RequestView {
    Ping,
    Status,
    Reset,
    Load(Seq<char>),
}

/// A [`DispatchError`] as contracts see it.
pub enum DispatchErrorView {
    NoCommand,
    UnknownAction(Seq<char>),
    MissingPath,
}

impl View for Request {
    type V = RequestView;

    open spec fn view(&self) -> RequestView {
        match self {
            Request::Ping => RequestView::Ping,
            Request::Status => RequestView::Status,
            Request::Reset => RequestView::Reset,
            Request::Load(path) => RequestView::Load(path@),
        }
    }
}

impl View for DispatchError {
    type V = DispatchErrorView;

    open spec fn view(&self) -> DispatchErrorView {
        match self {
            DispatchError::NoCommand => DispatchErrorView::NoCommand,
            DispatchError::UnknownAction(name) => DispatchErrorView::UnknownAction(name@),
            DispatchError::MissingPath => DispatchErrorView::MissingPath,
        }
    }
}

/// The request that a command makes, or the reason why it makes none.
pub open spec fn parsed(command: Seq<char>) -> Result<RequestView, DispatchErrorView> {
    let line = trimmed(command);
    let name = first_word(line);
    let argument = trimmed_start(after_first_word(line));
    if line.len() == 0 {
        Err(DispatchErrorView::NoCommand)
    } else if line[0] == '/' {
        Ok(RequestView::Load(line))
    } else if name == "ping"@ {
        Ok(RequestView::Ping)
    } else if name == "status"@ {
        Ok(RequestView::Status)
    } else if name == "reset"@ {
        Ok(RequestView::Reset)
    } else if name == "load"@ {
        if argument.len() == 0 {
            Err(DispatchErrorView::MissingPath)
        } else {
            Ok(RequestView::Load(argument))
        }
    } else {
        Err(DispatchErrorView::UnknownAction(name))
    }
}

/// Reads a command.
pub fn parse(command: &str) -> (outcome: Result<Request, DispatchError>)
    ensures
        match outcome {
            Ok(request) => parsed(command@) == Ok::<RequestView, DispatchErrorView>(request@),
            Err(error) => parsed(command@) == Err::<RequestView, DispatchErrorView>(error@),
        },
{
    let line = trim(command);
    if line.is_empty() {
        return Err(DispatchError::NoCommand);
    }
    if line.get_char(0) == '/' {
        return Ok(Request::Load(line.to_owned()));
    }
    let (name, rest) = split_first_word(line);
    if same_text(name, "ping") {
        Ok(Request::Ping)
    } else if same_text(name, "status") {
        Ok(Request::Status)
    } else if same_text(name, "reset") {
        Ok(Request::Reset)
    } else if same_text(name, "load") {
        let path = trim_start(rest);
        if path.is_empty() {
            Err(DispatchError::MissingPath)
        } else {
            Ok(Request::Load(path.to_owned()))
        }
    } else {
        Err(DispatchError::UnknownAction(name.to_owned()))
    }
}

/// What a command hands on is never empty and never has blanks at its ends:
/// the path to load starts and ends with something other than a blank, and
/// the name of an unknown action is one word.
pub proof fn lemma_parsed_parts(command: Seq<char>)
    ensures
        match parsed(command) {
            Ok(RequestView::Load(path)) => path.len() > 0 && !is_blank(path.first())
                && !is_blank(path.last()),
            Err(DispatchErrorView::UnknownAction(name)) => name.len() > 0 && forall|i: int|
                0 <= i < name.len() ==> !is_blank(#[trigger] name[i]),
            _ => true,
        },
{
    let line = trimmed(command);
    let rest = after_first_word(line);
    let argument = trimmed_start(rest);
    lemma_leading_blanks(command);
    lemma_trimmed_end(trimmed_start(command));
    lemma_first_word(line);
    lemma_leading_blanks(rest);
    if line.len() > 0 {
        assert(line[0] == trimmed_start(command)[0]);
        assert(!is_blank(line[0]));
        assert(word_len(line) > 0);
        if argument.len() > 0 {
            assert(argument.last() == line.last());
        }
    }
}

/// The three actions without an argument are read as what they name.
pub proof fn lemma_plain_actions()
    ensures
        parsed("ping"@) == Ok::<RequestView, DispatchErrorView>(RequestView::Ping),
        parsed("status"@) == Ok::<RequestView, DispatchErrorView>(RequestView::Status),
        parsed("reset"@) == Ok::<RequestView, DispatchErrorView>(RequestView::Reset),
{
    reveal_strlit("ping");
    reveal_strlit("status");
    reveal_strlit("reset");
    reveal_strlit("load");
    lemma_one_word("ping"@);
    lemma_one_word("status"@);
    lemma_one_word("reset"@);
}

/// `load`, a space and a path ask to load that path, if the path is not
/// empty and has no blanks at its ends; and so does a path alone that starts
/// with `/` and does not end in a blank.
pub proof fn lemma_load(path: Seq<char>)
    requires
        path.len() > 0,
        !is_blank(path.first()),
        !is_blank(path.last()),
    ensures
        parsed("load "@ + path) == Ok::<RequestView, DispatchErrorView>(RequestView::Load(path)),
        path.first() == '/' ==> parsed(path) == Ok::<RequestView, DispatchErrorView>(
            RequestView::Load(path),
        ),
{
    reveal_strlit("load ");
    reveal_strlit("load");
    reveal_strlit("ping");
    reveal_strlit("status");
    reveal_strlit("reset");
    let command = "load "@ + path;
    assert(command.last() == path.last());
    lemma_trimmed_already(command);
    lemma_first_word_is(command, 4);
    assert(first_word(command) =~= "load"@);
    let rest = after_first_word(command);
    assert(rest =~= seq![' '] + path);
    lemma_blanks_in_front(seq![' '], path);
    assert(trimmed_start(path) =~= path);
    lemma_trimmed_already(path);
}

/// A word alone is its own first word.
proof fn lemma_one_word(word: Seq<char>)
    requires
        word.len() > 0,
        forall|i: int| 0 <= i < word.len() ==> !is_blank(#[trigger] word[i]),
    ensures
        trimmed(word) == word,
        first_word(word) == word,
{
    assert(!is_blank(word[0]) && !is_blank(word[word.len() - 1]));
    lemma_trimmed_already(word);
    lemma_first_word_is(word, word.len() as int);
    assert(word.take(word.len() as int) =~= word);
}

} // verus!
