//! The errors that an interceptor or a handler can raise, and the fault
//! responses they turn into.

use vstd::prelude::*;
use vstd::std_specs::cmp::PartialEqSpecImpl;
use vstd::string::StringExecFns;
use crate::message::{Response, ResponseView};
use crate::status;

verus! {

/// What went wrong.
#[derive(Clone, Copy, Debug, PartialEq, Eq, Structural)]
pub enum ErrorKind {
    /// The request is malformed, for instance its body is too large.
    BadRequest,
    /// The request lacks valid credentials.
    Unauthorized,
    /// Nothing answers to the request's path.
    NotFound,
    /// A handler or an interceptor failed.
    InternalError,
}

impl ErrorKind {
    /// The status code that goes with this kind of error.
    pub open spec fn code(self) -> u16 {
        match self {
            ErrorKind::BadRequest => status::BAD_REQUEST,
            ErrorKind::Unauthorized => status::UNAUTHORIZED,
            ErrorKind::NotFound => status::NOT_FOUND,
            ErrorKind::InternalError => status::INTERNAL_SERVER_ERROR,
        }
    }

    /// The status code that goes with this kind of error.
    pub fn status_code(&self) -> (code: u16)
        ensures
            code == self.code(),
    {
        match self {
            ErrorKind::BadRequest => status::BAD_REQUEST,
            ErrorKind::Unauthorized => status::UNAUTHORIZED,
            ErrorKind::NotFound => status::NOT_FOUND,
            ErrorKind::InternalError => status::INTERNAL_SERVER_ERROR,
        }
    }
}

/// An error raised while a request is handled.
#[derive(Debug)]
pub struct Error {
    pub kind: ErrorKind,
    pub message: String,
}

/// What an [`Error`] holds, as mathematical values.
pub struct ErrorView {
    pub kind: ErrorKind,
    pub message: Seq<char>,
}

impl View for Error {
    type V = ErrorView;

    open spec fn view(&self) -> ErrorView {
        ErrorView { kind: self.kind, message: self.message@ }
    }
}

/// The generic response that reports the error `error`: the status code of
/// its kind, and its message as plain text.
pub open spec fn fault_response(error: ErrorView) -> ResponseView {
    ResponseView::text(error.kind.code(), error.message)
}

impl Error {
    /// An error of the given kind with the given message.
    pub fn new(kind: ErrorKind, message: &str) -> (error: Error)
        ensures
            error@ == (ErrorView { kind, message: message@ }),
    {
        Error { kind, message: String::from_str(message) }
    }

    /// The status code that goes with this error.
    pub fn status_code(&self) -> (code: u16)
        ensures
            code == self@.kind.code(),
    {
        self.kind.status_code()
    }

    /// The generic response that reports this error.
    pub fn error_response(&self) -> (response: Response)
        ensures
            response@ == fault_response(self@),
    {
        Response::text(self.kind.status_code(), self.message.as_str())
    }
}

impl PartialEq for Error {
    fn eq(&self, other: &Error) -> (same: bool) {
        self.kind == other.kind && self.message == other.message
    }
}

impl PartialEqSpecImpl for Error {
    open spec fn obeys_eq_spec() -> bool {
        true
    }

    open spec fn eq_spec(&self, other: &Error) -> bool {
        self@ == other@
    }
}

impl Clone for Error {
    fn clone(&self) -> (copy: Error)
        ensures
            copy@ == self@,
    {
        Error { kind: self.kind, message: self.message.clone() }
    }
}

/// What a handler returns, as mathematical values: a response, or an error.
pub type Answer = Result<ResponseView, ErrorView>;

/// The view of a handler's result.
pub open spec fn result_view(result: Result<Response, Error>) -> Answer {
    match result {
        Ok(response) => Ok(response@),
        Err(error) => Err(error@),
    }
}

/// The response that the caller gets for `result`: the response itself, or the
/// fault response of the error.
pub open spec fn settled(result: Answer) -> ResponseView {
    match result {
        Ok(response) => response,
        Err(error) => fault_response(error),
    }
}

/// Turns a handler's result into the response for the caller: an error
/// becomes its fault response.
pub fn settle(result: Result<Response, Error>) -> (response: Response)
    ensures
        response@ == settled(result_view(result)),
{
    match result {
        Ok(response) => response,
        Err(error) => error.error_response(),
    }
}

} // verus!
