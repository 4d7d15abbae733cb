//! Requests and responses as the bytes that travel over a connection.
//!
//! Neither direction has a length in front or a mark at the end: a request is
//! all that the client wrote before it closed its write side, a response all
//! that the daemon wrote before it closed the connection. Both are text in
//! UTF-8.
use crate::command::parsed;
use crate::dispatch::{
    dispatch, is_error, lemma_errors_are_marked, response_to, state_following,
};
use crate::state::{DaemonState, StateView};
use vstd::prelude::*;
use vstd::string::*;
use vstd::utf8::*;

verus! {

/// Why a request never reached the dispatcher.
#[derive(Debug, Clone, Copy, PartialEq, Eq)]
pub enum RequestError {
    /// The bytes of the request are not text.
    MalformedInput,
    /// Reading the request failed before its end was seen.
    ReadFailed,
}

impl RequestError {
    /// The response that reports this error.
    pub open spec fn spec_message(self) -> Seq<char> {
        match self {
            RequestError::MalformedInput => "error: malformed input"@,
            RequestError::ReadFailed => "error: request could not be read"@,
        }
    }

    /// The response that reports this error.
    pub fn message(&self) -> (text: String)
        ensures
            text@ == self.spec_message(),
    {
        match self {
            RequestError::MalformedInput => "error: malformed input".to_owned(),
            RequestError::ReadFailed => "error: request could not be read".to_owned(),
        }
    }
}

/// Reads bytes as text with `std::str::from_utf8`. Trusted: the call gives
/// text exactly for well-formed UTF-8, and the text it gives is made of the
/// very bytes it was handed.
#[verifier::external_body]
fn text_of(bytes: &[u8]) -> (text: Option<&str>)
    ensures
        text is Some <==> valid_utf8(bytes@),
        text is Some ==> text.unwrap().spec_bytes() == bytes@,
{
    std::str::from_utf8(bytes).ok()
}

/// The command that a request holds, where its bytes are text.
pub open spec fn command_in(request: Seq<u8>) -> Result<Seq<char>, RequestError> {
    if valid_utf8(request) {
        Ok(decode_utf8(request))
    } else {
        Err(RequestError::MalformedInput)
    }
}

/// The text that answers a request which arrives while the context is `state`.
pub open spec fn reply_text(request: Seq<u8>, state: StateView) -> Seq<char> {
    match command_in(request) {
        Ok(command) => response_to(command, state),
        Err(error) => error.spec_message(),
    }
}

/// The context after a request which arrives while the context is `state`.
pub open spec fn state_served(request: Seq<u8>, state: StateView) -> StateView {
    match command_in(request) {
        Ok(command) => state_following(command, state),
        Err(_) => state,
    }
}

/// Whether a request is answered with the report of an error: its bytes
/// are not text, or its command cannot be carried out.
pub open spec fn is_refused(request: Seq<u8>) -> bool {
    match command_in(request) {
        Ok(command) => parsed(command) is Err,
        Err(_) => true,
    }
}

/// On the wire too a response starts with `error: ` exactly when the request
/// was refused.
pub proof fn lemma_refusals_are_marked(request: Seq<u8>, state: StateView)
    ensures
        is_error(reply_text(request, state)) <==> is_refused(request),
{
    match command_in(request) {
        Ok(command) => {
            lemma_errors_are_marked(command, state);
        },
        Err(error) => {
            reveal_strlit("error: ");
            reveal_strlit("error: malformed input");
            assert(reply_text(request, state).subrange(0, "error: "@.len() as int)
                =~= "error: "@);
        },
    }
}

/// Decodes a request.
pub fn decode(request: &[u8]) -> (command: Result<&str, RequestError>)
    ensures
        match command {
            Ok(text) => command_in(request@) == Ok::<Seq<char>, RequestError>(text@),
            Err(error) => command_in(request@) == Err::<Seq<char>, RequestError>(error),
        },
{
    broadcast use encode_utf8_decode_utf8;

    match text_of(request) {
        Some(text) => {
            assert(decode_utf8(encode_utf8(text@)) == text@);
            Ok(text)
        },
        None => Err(RequestError::MalformedInput),
    }
}

/// Encodes a response.
pub fn encode(response: &str) -> (bytes: Vec<u8>)
    ensures
        bytes@ == encode_utf8(response@),
{
    response.as_bytes_vec()
}

/// Serves one whole request: decodes it, has it dispatched, and encodes the
/// response. Bytes that are not text are answered with the text of
/// [`RequestError::MalformedInput`] and never reach the dispatcher.
pub fn respond(request: &[u8], state: &mut DaemonState) -> (response: Vec<u8>)
    ensures
        response@ == encode_utf8(reply_text(request@, old(state)@)),
        final(state)@ == state_served(request@, old(state)@),
{
    let text = match decode(request) {
        Ok(command) => dispatch(command, state),
        Err(error) => error.message(),
    };
    encode(text.as_str())
}

} // verus!
