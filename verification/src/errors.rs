//! The JSON error envelope shared by the endpoints, and the rendering of an
//! error together with the chain of its causes.

use vstd::prelude::*;
use vstd::string::StringExecFns;
use crate::text::{decimal_text, push_char, push_decimal_usize};

verus! {

/// Whether `http::StatusCode::from_u16` accepts a code.
pub open spec fn is_valid_status(code: u16) -> bool {
    100 <= code <= 999
}

/// `http::StatusCode::from_u16(code)` read back with `as_u16`: the code
/// itself when it lies in `100..=999`, and no status otherwise.
#[verifier::external_body]
fn checked_status_code(code: u16) -> (r: Option<u16>)
    ensures
        r == (if is_valid_status(code) { Some(code) } else { None::<u16> }),
{
    match axum::http::StatusCode::from_u16(code) {
        Ok(status) => Some(status.as_u16()),
        Err(_) => None,
    }
}

/// The body of every failed request: `{"status": ..., "reason": ...}`.
#[derive(Debug)]
pub struct ApiError {
    pub status: u16,
    pub reason: String,
}

/// The status line sent with an envelope: its own status when that is a
/// valid HTTP status code, 500 Internal Server Error otherwise.
pub open spec fn spec_response_status(status: u16) -> u16 {
    if is_valid_status(status) {
        status
    } else {
        500
    }
}

impl ApiError {
    /// The HTTP status the envelope is answered with.
    pub fn response_status(&self) -> (code: u16)
        ensures
            code == spec_response_status(self.status),
    {
        match checked_status_code(self.status) {
            Some(code) => code,
            None => 500,
        }
    }
}

/// An error that an endpoint answers with: an HTTP status and a reason.
pub trait ApiErrorResponse {
    /// The status this error is answered with.
    spec fn spec_status(&self) -> u16;

    /// The reason given to the client.
    spec fn spec_reason(&self) -> Seq<char>;

    fn status(&self) -> (code: u16)
        ensures
            code == self.spec_status(),
    ;

    fn reason(&self) -> (text: String)
        ensures
            text@ == self.spec_reason(),
    ;
}

/// The envelope for an endpoint error.
pub fn response<E: ApiErrorResponse>(error: &E) -> (envelope: ApiError)
    ensures
        envelope.status == error.spec_status(),
        envelope.reason@ == error.spec_reason(),
{
    ApiError { status: error.status(), reason: error.reason() }
}

/// `Caused by:` followed by a line break.
pub open spec fn caused_by_line() -> Seq<char> {
    seq!['C', 'a', 'u', 's', 'e', 'd', ' ', 'b', 'y', ':', '\n']
}

/// One line per cause: a tab, its level counted from 0, `": "`, its message.
pub open spec fn cause_lines(causes: Seq<Seq<char>>) -> Seq<char>
    decreases causes.len(),
{
    if causes.len() == 0 {
        Seq::empty()
    } else {
        cause_lines(causes.drop_last()) + seq!['\t'] + decimal_text(causes.len() - 1) + seq![':', ' ']
            + causes.last() + seq!['\n']
    }
}

/// An error's message on its own line, then, when it has causes, a
/// `Caused by:` line and one numbered line per cause, innermost last.
pub open spec fn error_chain_text(message: Seq<char>, causes: Seq<Seq<char>>) -> Seq<char> {
    if causes.len() == 0 {
        message.push('\n')
    } else {
        message.push('\n') + caused_by_line() + cause_lines(causes)
    }
}

/// Renders an error and the whole chain of errors that led to it: `message`
/// is the error's own text and `causes` the texts of its successive sources.
pub fn error_chain_fmt(message: &str, causes: &Vec<String>) -> (text: String)
    ensures
        text@ == error_chain_text(message@, causes@.map_values(|c: String| c@)),
{
    let ghost views = causes@.map_values(|c: String| c@);
    let mut text = String::new();
    text.append(message);
    push_char(&mut text, '\n');
    if causes.len() == 0 {
        return text;
    }
    let ghost head = text@;
    text.append("Caused by:\n");
    proof {
        reveal_strlit("Caused by:\n");
        assert(text@ == head + caused_by_line());
    }
    let mut level: usize = 0;
    while level < causes.len()
        invariant
            level <= causes.len(),
            views == causes@.map_values(|c: String| c@),
            text@ == head + caused_by_line() + cause_lines(views.take(level as int)),
        decreases causes.len() - level,
    {
        let ghost before = text@;
        push_char(&mut text, '\t');
        push_decimal_usize(&mut text, level);
        push_char(&mut text, ':');
        push_char(&mut text, ' ');
        text.append(causes[level].as_str());
        push_char(&mut text, '\n');
        proof {
            let taken = views.take(level + 1);
            assert(taken.drop_last() == views.take(level as int));
            assert(taken.last() == causes@[level as int]@);
            assert(text@ == before + seq!['\t'] + decimal_text(level as int) + seq![':', ' ']
                + causes@[level as int]@ + seq!['\n']);
        }
        level = level + 1;
    }
    assert(views.take(causes.len() as int) == views);
    text
}

/// An envelope whose status is a valid HTTP status is answered with that
/// status; any other is answered with 500.
pub proof fn lemma_response_status_valid(status: u16)
    ensures
        is_valid_status(spec_response_status(status)),
        is_valid_status(status) ==> spec_response_status(status) == status,
{
}

/// A further cause adds exactly one line to the rendered chain: a tab, its
/// level, and its message.
pub proof fn lemma_error_chain_one_line_per_cause(message: Seq<char>, causes: Seq<Seq<char>>, cause: Seq<char>)
    requires
        causes.len() > 0,
    ensures
        error_chain_text(message, causes.push(cause)) == error_chain_text(message, causes) + seq!['\t']
            + decimal_text(causes.len() as int) + seq![':', ' '] + cause + seq!['\n'],
{
    assert(causes.push(cause).drop_last() == causes);
}

} // verus!
