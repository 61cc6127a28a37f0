//! Error types of an application's own, each with its status code and with
//! the response that reports it.

use vstd::prelude::*;
use vstd::string::StringExecFns;
use vstd::string::StrSliceExecFns;
use vstd::utf8::encode_utf8;
use crate::message::{content_type, Response, ResponseView};
use crate::status;

verus! {

/// The response that reports an error as a page: the status code `code`, the
/// media type `media_type`, and the error's text as the body.
pub open spec fn error_page(code: u16, media_type: Seq<char>, text: Seq<char>) -> ResponseView {
    ResponseView::empty(code).with_header(content_type(), encode_utf8(media_type)).with_body(
        encode_utf8(text),
    )
}

fn render_page(code: u16, media_type: &str, text: &str) -> (response: Response)
    ensures
        response@ == error_page(code, media_type@, text@),
{
    Response::new(code).with_header("content-type".as_bytes(), media_type.as_bytes()).with_body(
        text.as_bytes_vec(),
    )
}

/// What can go wrong in the application.
#[derive(Clone, Copy, Debug, PartialEq, Eq, Structural)]
pub enum MyError {
    InternalError,
    BadClientData,
    Timeout,
}

impl MyError {
    /// The error's text.
    pub open spec fn text(self) -> Seq<char> {
        match self {
            MyError::InternalError => "internal error"@,
            MyError::BadClientData => "bod request"@,
            MyError::Timeout => "timeout"@,
        }
    }

    /// The error's status code.
    pub open spec fn code(self) -> u16 {
        match self {
            MyError::InternalError => status::INTERNAL_SERVER_ERROR,
            MyError::BadClientData => status::BAD_REQUEST,
            MyError::Timeout => status::GATEWAY_TIMEOUT,
        }
    }

    /// The error's text.
    pub fn to_string(&self) -> (text: String)
        ensures
            text@ == self.text(),
    {
        match self {
            MyError::InternalError => String::from_str("internal error"),
            MyError::BadClientData => String::from_str("bod request"),
            MyError::Timeout => String::from_str("timeout"),
        }
    }

    /// The error's status code: 500 for an internal error, 400 for bad data
    /// from the client, 504 for a timeout.
    pub fn status_code(&self) -> (code: u16)
        ensures
            code == self.code(),
    {
        match *self {
            MyError::InternalError => status::INTERNAL_SERVER_ERROR,
            MyError::BadClientData => status::BAD_REQUEST,
            MyError::Timeout => status::GATEWAY_TIMEOUT,
        }
    }

    /// The response that reports the error: its status code, and its text as
    /// an HTML page.
    pub fn error_response(&self) -> (response: Response)
        ensures
            response@ == error_page(self.code(), "text/html; charset=utf-8"@, self.text()),
    {
        render_page(self.status_code(), "text/html; charset=utf-8", self.to_string().as_str())
    }
}

/// The handler that always fails with bad data from the client.
pub fn index() -> (result: Result<&'static str, MyError>)
    ensures
        result == Err::<&'static str, MyError>(MyError::BadClientData),
{
    let err = MyError::BadClientData;
    Err(err)
}

/// What a user can do wrong.
#[derive(Debug)]
pub enum UserError {
    /// The field `field` does not hold what it should.
    Validation { field: String },
}

impl UserError {
    /// The error's text.
    pub open spec fn text(self) -> Seq<char> {
        match self {
            UserError::Validation { field } => "Validation error on field: "@ + field@,
        }
    }

    /// The error's text.
    pub fn to_string(&self) -> (text: String)
        ensures
            text@ == self.text(),
    {
        match self {
            UserError::Validation { field } => {
                String::from_str("Validation error on field: ").concat(field.as_str())
            },
        }
    }

    /// The error's status code: 400.
    pub fn status_code(&self) -> (code: u16)
        ensures
            code == status::BAD_REQUEST,
    {
        match *self {
            UserError::Validation { .. } => status::BAD_REQUEST,
        }
    }

    /// The response that reports the error: its status code, and its text as
    /// an HTML page.
    pub fn error_response(&self) -> (response: Response)
        ensures
            response@ == error_page(
                status::BAD_REQUEST,
                "text/html; charset = utf-8"@,
                self.text(),
            ),
    {
        render_page(self.status_code(), "text/html; charset = utf-8", self.to_string().as_str())
    }
}

/// The handler that always fails on the field `username`.
pub fn user_error() -> (result: Result<&'static str, UserError>)
    ensures
        result matches Err(UserError::Validation { field }) && field@ == "username"@,
{
    let error = UserError::Validation { field: String::from_str("username") };
    Err(error)
}

} // verus!
