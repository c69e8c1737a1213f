use crate::model::{query_token_values, same_query_tokens, QueryToken, QueryTokenValue};
use vstd::prelude::*;

verus! {

/// The broad kind of a failure.
#[derive(Clone, Copy, Debug, PartialEq, Eq, Structural)]
pub enum ErrorKind {
    /// The request did not reach the server, or no response came back.
    Connection,
    /// The server answered with an undefined status, or with a body of the
    /// wrong shape.
    Exception,
    /// The server understood the request and rejected it.
    BadInput,
}

/// The reasons the server gives for rejecting a request.
#[derive(Clone, Copy, Debug, PartialEq, Eq, Structural)]
pub enum ErrorCode {
    InvalidParameterLimit,
    InvalidParameterStart,
    InvalidQueryBadAlternation,
    InvalidQueryBadCompletion,
    InvalidQueryBadTermGroup,
    InvalidQueryNoTerm,
    InvalidQueryTooExpensive,
    InvalidQueryTooManyTokens,
    InvalidRequestBody,
    InvalidEncoding,
    MissingParameterQuery,
}

/// A rejection by the server: its code, and the query tokens it echoed, if any.
#[derive(Debug)]
pub struct BadInputError {
    pub code: ErrorCode,
    pub query_tokens: Option<Vec<QueryToken>>,
}

/// The values of the query tokens a rejection echoed, if any.
pub open spec fn echoed_tokens(tokens: Option<Vec<QueryToken>>) -> Option<Seq<QueryTokenValue>> {
    match tokens {
        Some(ts) => Some(query_token_values(ts@)),
        None => None,
    }
}

impl PartialEq for BadInputError {
    fn eq(&self, other: &BadInputError) -> (r: bool)
        ensures
            r == (self.code == other.code && echoed_tokens(self.query_tokens) == echoed_tokens(
                other.query_tokens,
            )),
    {
        if self.code != other.code {
            return false;
        }
        match (&self.query_tokens, &other.query_tokens) {
            (Some(a), Some(b)) => same_query_tokens(a, b),
            (None, None) => true,
            _ => false,
        }
    }
}

impl vstd::std_specs::cmp::PartialEqSpecImpl for BadInputError {
    open spec fn obeys_eq_spec() -> bool {
        true
    }

    open spec fn eq_spec(&self, other: &BadInputError) -> bool {
        self.code == other.code && echoed_tokens(self.query_tokens) == echoed_tokens(
            other.query_tokens,
        )
    }
}

/// An HTTP status that the protocol does not define for the resource.
#[derive(Clone, Copy, Debug, PartialEq, Eq, Structural)]
pub struct UnexpectedStatusCode(u16);

impl UnexpectedStatusCode {
    pub closed spec fn spec_code(&self) -> u16 {
        self.0
    }

    pub fn new(code: u16) -> (r: UnexpectedStatusCode)
        ensures
            r.spec_code() == code,
    {
        UnexpectedStatusCode(code)
    }

    /// The status the server answered with.
    pub fn code(&self) -> (r: u16)
        ensures
            r == self.spec_code(),
    {
        self.0
    }
}

/// What caused a failure.
#[derive(Debug)]
pub enum ErrorSource {
    /// The transport failed; the text describes how.
    Transport(String),
    /// A response body did not have the expected shape; the text describes how.
    Malformed(String),
    /// The server rejected the request.
    BadInput(BadInputError),
    /// The server answered with a status the protocol does not define.
    UnexpectedStatusCode(UnexpectedStatusCode),
}

/// A failure of one request: its kind and, mostly, its cause.
#[derive(Debug)]
pub struct Error {
    kind: ErrorKind,
    source: Option<ErrorSource>,
}

impl Error {
    pub closed spec fn spec_kind(&self) -> ErrorKind {
        self.kind
    }

    pub closed spec fn spec_source(&self) -> Option<ErrorSource> {
        self.source
    }

    pub fn new(kind: ErrorKind, source: Option<ErrorSource>) -> (r: Error)
        ensures
            r.spec_kind() == kind,
            r.spec_source() == source,
    {
        Error { kind, source }
    }

    /// A transport failure, described by `detail`.
    pub fn connection(detail: String) -> (r: Error)
        ensures
            r.spec_kind() == ErrorKind::Connection,
            r.spec_source() == Some(ErrorSource::Transport(detail)),
    {
        Error::new(ErrorKind::Connection, Some(ErrorSource::Transport(detail)))
    }

    /// A response body of the wrong shape, described by `detail`.
    pub fn exception(detail: String) -> (r: Error)
        ensures
            r.spec_kind() == ErrorKind::Exception,
            r.spec_source() == Some(ErrorSource::Malformed(detail)),
    {
        Error::new(ErrorKind::Exception, Some(ErrorSource::Malformed(detail)))
    }

    /// A rejection by the server.
    pub fn bad_input(err: BadInputError) -> (r: Error)
        ensures
            r.spec_kind() == ErrorKind::BadInput,
            r.spec_source() == Some(ErrorSource::BadInput(err)),
    {
        Error::new(ErrorKind::BadInput, Some(ErrorSource::BadInput(err)))
    }

    /// An answer with a status the protocol does not define.
    pub fn unexpected_status_code(code: u16) -> (r: Error)
        ensures
            r.spec_kind() == ErrorKind::Exception,
            r.spec_source() matches Some(ErrorSource::UnexpectedStatusCode(s))
                && s.spec_code() == code,
    {
        Error::new(
            ErrorKind::Exception,
            Some(ErrorSource::UnexpectedStatusCode(UnexpectedStatusCode::new(code))),
        )
    }

    pub fn kind(&self) -> (r: ErrorKind)
        ensures
            r == self.spec_kind(),
    {
        self.kind
    }

    pub fn source(&self) -> (r: Option<&ErrorSource>)
        ensures
            r is Some <==> self.spec_source() is Some,
            r is Some ==> *r->0 == self.spec_source()->0,
    {
        match &self.source {
            Some(s) => Some(s),
            None => None,
        }
    }

    /// The rejection this error carries.
    pub fn into_bad_input_error(self) -> (r: BadInputError)
        requires
            self.spec_source() matches Some(ErrorSource::BadInput(_)),
        ensures
            self.spec_source() == Some(ErrorSource::BadInput(r)),
    {
        match self.source {
            Some(ErrorSource::BadInput(e)) => e,
            _ => {
                proof {
                    assert(false);
                }
                BadInputError { code: ErrorCode::InvalidParameterLimit, query_tokens: None }
            },
        }
    }

    /// A short description of the kind of failure.
    pub fn message(&self) -> (r: &'static str)
        ensures
            r@ == kind_message(self.spec_kind()),
    {
        proof {
            reveal_strlit("connection error");
            reveal_strlit("unexpected error");
            reveal_strlit("bad input");
        }
        match self.kind {
            ErrorKind::Connection => "connection error",
            ErrorKind::Exception => "unexpected error",
            ErrorKind::BadInput => "bad input",
        }
    }
}

/// The description of each kind of failure.
pub open spec fn kind_message(kind: ErrorKind) -> Seq<char> {
    match kind {
        ErrorKind::Connection => seq!['c', 'o', 'n', 'n', 'e', 'c', 't', 'i', 'o', 'n', ' ', 'e', 'r', 'r', 'o', 'r'],
        ErrorKind::Exception => seq!['u', 'n', 'e', 'x', 'p', 'e', 'c', 't', 'e', 'd', ' ', 'e', 'r', 'r', 'o', 'r'],
        ErrorKind::BadInput => seq!['b', 'a', 'd', ' ', 'i', 'n', 'p', 'u', 't'],
    }
}

} // verus!
