use vstd::prelude::*;

verus! {

/// The pair of tokens handed to a client.
pub struct JwtResponse {
    pub access: String,
    pub refresh: String,
}

impl JwtResponse {
    pub fn new(access: String, refresh: String) -> (r: JwtResponse)
        ensures
            r.access == access,
            r.refresh == refresh,
    {
        JwtResponse { access, refresh }
    }
}

/// A request body that carries a token.
pub struct Token {
    pub token: Option<String>,
}

/// A body with a message.
pub struct ReturnMessage {
    pub message: String,
}

impl ReturnMessage {
    pub fn new(message: String) -> (r: ReturnMessage)
        ensures
            r.message == message,
    {
        ReturnMessage { message }
    }
}

/// A body with one error.
pub struct ReturnError {
    pub error: String,
}

impl ReturnError {
    pub fn new(message: String) -> (r: ReturnError)
        ensures
            r.error == message,
    {
        ReturnError { error: message }
    }
}

/// A body with several errors.
pub struct ReturnErrors {
    pub errors: Vec<String>,
}

impl ReturnErrors {
    pub fn new(errors: Vec<String>) -> (r: ReturnErrors)
        ensures
            r.errors == errors,
    {
        ReturnErrors { errors }
    }
}

/// The HTTP statuses that the service answers with.
#[derive(Clone, Copy, Debug, PartialEq, Eq, Structural)]
pub enum Status {
    Success,
    BadRequest,
    NotAcceptable,
    InternalServerError,
}

/// The body of an answer.
pub enum Body {
    Error(ReturnError),
    Errors(ReturnErrors),
    Message(ReturnMessage),
    Empty,
}

/// An answer to a request: a status and a body.
pub struct Reply {
    pub status: Status,
    pub body: Body,
}

/// `r` has status `status` and a one-error body that reads `msg`.
pub open spec fn is_error_reply(r: Reply, status: Status, msg: Seq<char>) -> bool {
    &&& r.status == status
    &&& r.body matches Body::Error(e)
    &&& e.error@ == msg
}

/// `r` has status `status` and a body listing the errors `msgs`, in order.
pub open spec fn is_errors_reply(r: Reply, status: Status, msgs: Seq<Seq<char>>) -> bool {
    &&& r.status == status
    &&& r.body matches Body::Errors(es)
    &&& crate::utils::text::views(es.errors@) == msgs
}

/// The text of a one-error body; empty for other bodies.
pub open spec fn error_text(r: Reply) -> Seq<char> {
    match r.body {
        Body::Error(e) => e.error@,
        _ => Seq::empty(),
    }
}

/// `r` has status `status` and a message body that reads `msg`.
pub open spec fn is_message_reply(r: Reply, status: Status, msg: Seq<char>) -> bool {
    &&& r.status == status
    &&& r.body matches Body::Message(m)
    &&& m.message@ == msg
}

/// `r` has status `status` and no body.
pub open spec fn is_empty_reply(r: Reply, status: Status) -> bool {
    r.status == status && r.body is Empty
}

impl Reply {
    /// An answer whose body is one error reading `msg`.
    pub fn error(status: Status, msg: &str) -> (r: Reply)
        ensures
            is_error_reply(r, status, msg@),
    {
        Reply { status, body: Body::Error(ReturnError::new(msg.to_owned())) }
    }

    /// An answer whose body is a message reading `msg`.
    pub fn message(status: Status, msg: &str) -> (r: Reply)
        ensures
            is_message_reply(r, status, msg@),
    {
        Reply { status, body: Body::Message(ReturnMessage::new(msg.to_owned())) }
    }

    /// An answer with no body.
    pub fn empty(status: Status) -> (r: Reply)
        ensures
            is_empty_reply(r, status),
    {
        Reply { status, body: Body::Empty }
    }
}

} // verus!
