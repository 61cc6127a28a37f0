//! Requests and responses as plain values.

use vstd::prelude::*;
use vstd::string::StringExecFns;
use vstd::string::StrSliceExecFns;
use vstd::utf8::encode_utf8;
use vstd::std_specs::cmp::PartialEqSpecImpl;
use crate::headers::{bytes_eq, copy_bytes, Headers};
use crate::text::lower;

verus! {

/// The request method.
#[derive(Clone, Copy, Debug, PartialEq, Eq, Structural)]
pub enum Method {
    Get,
    Head,
    Post,
    Put,
    Delete,
    Options,
    Patch,
}

impl Method {
    /// The method's token as it stands in a request line.
    pub open spec fn token(self) -> Seq<char> {
        match self {
            Method::Get => "GET"@,
            Method::Head => "HEAD"@,
            Method::Post => "POST"@,
            Method::Put => "PUT"@,
            Method::Delete => "DELETE"@,
            Method::Options => "OPTIONS"@,
            Method::Patch => "PATCH"@,
        }
    }

    /// The method's token as it stands in a request line.
    pub fn as_str(&self) -> (name: &'static str)
        ensures
            name@ == self.token(),
    {
        match self {
            Method::Get => "GET",
            Method::Head => "HEAD",
            Method::Post => "POST",
            Method::Put => "PUT",
            Method::Delete => "DELETE",
            Method::Options => "OPTIONS",
            Method::Patch => "PATCH",
        }
    }
}

/// The name of the header that tells the media type of a body.
pub open spec fn content_type() -> Seq<u8> {
    encode_utf8("content-type"@)
}

/// The name `content-type` is in lower case already: it is the key under
/// which a set of header fields holds the field.
pub proof fn lemma_content_type_is_lower()
    ensures
        lower(content_type()) == content_type(),
        content_type().len() == 12,
{
    reveal_strlit("content-type");
    let chars = "content-type"@;
    assert(vstd::utf8::is_ascii_chars(chars));
    vstd::utf8::is_ascii_chars_encode_utf8(chars);
    assert(lower(content_type()) =~= content_type());
}

/// The media type of a body of plain text.
pub open spec fn plain_text() -> Seq<u8> {
    encode_utf8("text/plain; charset=utf-8"@)
}

/// A request: method, path, header fields and body.
#[derive(Debug)]
pub struct Request {
    pub method: Method,
    pub path: String,
    pub headers: Headers,
    pub body: Vec<u8>,
}

/// What a [`Request`] holds, as mathematical values.
pub struct RequestView {
    pub method: Method,
    pub path: Seq<char>,
    pub headers: Map<Seq<u8>, Seq<u8>>,
    pub body: Seq<u8>,
}

impl View for Request {
    type V = RequestView;

    open spec fn view(&self) -> RequestView {
        RequestView {
            method: self.method,
            path: self.path@,
            headers: self.headers@,
            body: self.body@,
        }
    }
}

impl RequestView {
    /// This request with the field `name` set to `value`.
    pub open spec fn with_header(self, name: Seq<u8>, value: Seq<u8>) -> RequestView {
        RequestView { headers: self.headers.insert(lower(name), value), ..self }
    }

    /// This request with `body` as its body.
    pub open spec fn with_body(self, body: Seq<u8>) -> RequestView {
        RequestView { body, ..self }
    }
}

impl Request {
    /// A request for `path` without header fields and with an empty body.
    pub fn new(method: Method, path: &str) -> (request: Request)
        ensures
            request@ == (RequestView {
                method,
                path: path@,
                headers: Map::empty(),
                body: Seq::empty(),
            }),
    {
        Request { method, path: String::from_str(path), headers: Headers::new(), body: Vec::new() }
    }

    /// Sets the header field `name` to `value`.
    pub fn with_header(self, name: &[u8], value: &[u8]) -> (request: Request)
        ensures
            request@ == self@.with_header(name@, value@),
    {
        let mut request = self;
        request.headers.insert(name, value);
        request
    }

    /// Replaces the body.
    pub fn with_body(self, body: Vec<u8>) -> (request: Request)
        ensures
            request@ == self@.with_body(body@),
    {
        let mut request = self;
        request.body = body;
        request
    }
}

impl PartialEq for Request {
    fn eq(&self, other: &Request) -> (same: bool) {
        self.method == other.method && self.path == other.path && self.headers == other.headers
            && bytes_eq(self.body.as_slice(), other.body.as_slice())
    }
}

impl PartialEqSpecImpl for Request {
    open spec fn obeys_eq_spec() -> bool {
        true
    }

    open spec fn eq_spec(&self, other: &Request) -> bool {
        self@ == other@
    }
}

impl Clone for Request {
    fn clone(&self) -> (copy: Request)
        ensures
            copy@ == self@,
    {
        Request {
            method: self.method,
            path: self.path.clone(),
            headers: self.headers.clone(),
            body: copy_bytes(self.body.as_slice()),
        }
    }
}

/// A response: status code, header fields and body.
#[derive(Debug)]
pub struct Response {
    pub status: u16,
    pub headers: Headers,
    pub body: Vec<u8>,
}

/// What a [`Response`] holds, as mathematical values.
pub struct ResponseView {
    pub status: u16,
    pub headers: Map<Seq<u8>, Seq<u8>>,
    pub body: Seq<u8>,
}

impl View for Response {
    type V = ResponseView;

    open spec fn view(&self) -> ResponseView {
        ResponseView { status: self.status, headers: self.headers@, body: self.body@ }
    }
}

impl ResponseView {
    /// The response with the given status, no header fields and an empty body.
    pub open spec fn empty(status: u16) -> ResponseView {
        ResponseView { status, headers: Map::empty(), body: Seq::empty() }
    }

    /// This response with the field `name` set to `value`.
    pub open spec fn with_header(self, name: Seq<u8>, value: Seq<u8>) -> ResponseView {
        ResponseView { headers: self.headers.insert(lower(name), value), ..self }
    }

    /// This response with `body` as its body.
    pub open spec fn with_body(self, body: Seq<u8>) -> ResponseView {
        ResponseView { body, ..self }
    }

    /// The response that carries `text` as plain text.
    pub open spec fn text(status: u16, text: Seq<char>) -> ResponseView {
        ResponseView::empty(status).with_header(content_type(), plain_text()).with_body(
            encode_utf8(text),
        )
    }
}

impl Response {
    /// A response with the given status, no header fields and an empty body.
    pub fn new(status: u16) -> (response: Response)
        ensures
            response@ == ResponseView::empty(status),
    {
        Response { status, headers: Headers::new(), body: Vec::new() }
    }

    /// Sets the header field `name` to `value`.
    pub fn with_header(self, name: &[u8], value: &[u8]) -> (response: Response)
        ensures
            response@ == self@.with_header(name@, value@),
    {
        let mut response = self;
        response.headers.insert(name, value);
        response
    }

    /// Replaces the body.
    pub fn with_body(self, body: Vec<u8>) -> (response: Response)
        ensures
            response@ == self@.with_body(body@),
    {
        let mut response = self;
        response.body = body;
        response
    }

    /// A response whose body is `text`, marked as plain text.
    pub fn text(status: u16, text: &str) -> (response: Response)
        ensures
            response@ == ResponseView::text(status, text@),
    {
        Response::new(status).with_header(
            "content-type".as_bytes(),
            "text/plain; charset=utf-8".as_bytes(),
        ).with_body(text.as_bytes_vec())
    }
}

impl PartialEq for Response {
    fn eq(&self, other: &Response) -> (same: bool) {
        self.status == other.status && self.headers == other.headers && bytes_eq(
            self.body.as_slice(),
            other.body.as_slice(),
        )
    }
}

impl PartialEqSpecImpl for Response {
    open spec fn obeys_eq_spec() -> bool {
        true
    }

    open spec fn eq_spec(&self, other: &Response) -> bool {
        self@ == other@
    }
}

impl Clone for Response {
    fn clone(&self) -> (copy: Response)
        ensures
            copy@ == self@,
    {
        Response {
            status: self.status,
            headers: self.headers.clone(),
            body: copy_bytes(self.body.as_slice()),
        }
    }
}

} // verus!
