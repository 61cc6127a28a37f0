//! The interceptors that come with the library.

use vstd::prelude::*;
use vstd::string::StringExecFns;
use vstd::utf8::encode_utf8;
use crate::chain::Chain;
use crate::error::{fault_response, Answer, Error, ErrorKind, ErrorView};
use crate::headers::{bytes_eq, copy_bytes};
use crate::interceptor::{
    lemma_trace_view_add, lemma_trace_view_push, trace_view, Entry, EntryView, Exchange,
    ExchangeView, Interceptor, PostOutcome, PostOutcomeView, PreAction, PreActionView, PreOutcome,
    PreOutcomeView, Service, Stage,
};
use crate::message::{content_type, Request, RequestView, Response, ResponseView};
use crate::status;
use crate::text::{decimal, lower, push_decimal};

verus! {

/// An interceptor that greets: it lets every request and every response
/// through as it is, and says a line on each.
#[derive(Clone, Copy, Debug, PartialEq, Eq, Structural)]
pub struct SayHi;

impl SayHi {
    /// The line said on a request for `path`.
    pub open spec fn greeting(path: Seq<char>) -> Seq<char> {
        "Hi from start. You requested: "@ + path
    }

    /// The line said on a response.
    pub open spec fn farewell() -> Seq<char> {
        "Hi from response"@
    }

    /// The line said on a request for `path`.
    pub fn start_line(&self, path: &str) -> (line: String)
        ensures
            line@ == SayHi::greeting(path@),
    {
        String::from_str("Hi from start. You requested: ").concat(path)
    }

    /// The line said on a response.
    pub fn response_line(&self) -> (line: String)
        ensures
            line@ == SayHi::farewell(),
    {
        String::from_str("Hi from response")
    }

    /// Puts the greeting around `service`.
    pub fn new_transform<S: Service>(&self, service: S) -> (middleware: SayHiMiddleware<S>)
        ensures
            middleware.service == service,
    {
        SayHiMiddleware { service }
    }
}

impl Interceptor for SayHi {
    open spec fn pre_spec(&self, request: RequestView) -> PreOutcomeView {
        PreOutcomeView {
            action: PreActionView::Continue(request),
            note: Some(SayHi::greeting(request.path)),
        }
    }

    fn pre(&self, request: Request) -> (outcome: PreOutcome) {
        let line = self.start_line(request.path.as_str());
        PreOutcome { action: PreAction::Continue(request), note: Some(line) }
    }

    open spec fn post_spec(&self, response: ResponseView) -> PostOutcomeView {
        PostOutcomeView { result: Ok(response), note: Some(SayHi::farewell()) }
    }

    fn post(&self, response: Response) -> (outcome: PostOutcome) {
        PostOutcome { result: Ok(response), note: Some(self.response_line()) }
    }

    open spec fn recover_spec(&self, error: ErrorView) -> Answer {
        Err(error)
    }

    fn recover(&self, error: Error) -> (result: Result<Response, Error>) {
        Err(error)
    }
}

/// The greeting bound to the service behind it.
#[derive(Debug)]
pub struct SayHiMiddleware<S> {
    pub service: S,
}

impl<S: Service> Service for SayHiMiddleware<S> {
    /// The greeting on the request, then what the service behind makes of
    /// the request, then, where that is a response, the greeting on it. An
    /// error of the service comes out as it is, with no second greeting.
    open spec fn call_spec(&self, request: RequestView) -> ExchangeView {
        let inner = self.service.call_spec(request);
        let entered = seq![
            EntryView { stage: Stage::Pre(0), note: Some(SayHi::greeting(request.path)) },
        ];
        match inner.result {
            Ok(response) => ExchangeView {
                result: Ok(response),
                trace: (entered + inner.trace).push(
                    EntryView { stage: Stage::Post(0), note: Some(SayHi::farewell()) },
                ),
            },
            Err(error) => ExchangeView { result: Err(error), trace: entered + inner.trace },
        }
    }

    fn call(&self, request: Request) -> (exchange: Exchange) {
        let mut trace: Vec<Entry> = Vec::new();
        let entry = Entry {
            stage: Stage::Pre(0),
            note: Some(SayHi.start_line(request.path.as_str())),
        };
        trace.push(entry);
        let inner = self.service.call(request);
        let mut rest = inner.trace;
        proof {
            lemma_trace_view_add(trace@, rest@);
        }
        trace.append(&mut rest);
        assert(trace_view(trace@) =~= seq![entry@] + self.service.call_spec(request@).trace);
        match inner.result {
            Ok(response) => {
                let left = Entry { stage: Stage::Post(0), note: Some(SayHi.response_line()) };
                proof {
                    lemma_trace_view_push(trace@, left);
                }
                trace.push(left);
                Exchange { result: Ok(response), trace }
            },
            Err(error) => Exchange { result: Err(error), trace },
        }
    }
}

/// The greeting bound to a service is the chain of that one interceptor
/// around the service.
pub proof fn law_say_hi_is_a_chain_of_one<S: Service>(
    middleware: SayHiMiddleware<S>,
    chain: Chain<SayHi, S>,
    request: RequestView,
)
    requires
        chain.interceptors@ == seq![SayHi],
        chain.terminal == middleware.service,
    ensures
        middleware.call_spec(request) == chain.call_spec(request),
{
    let inner = chain.run_spec(1, request);
    assert(inner == middleware.service.call_spec(request));
    assert(chain.interceptors@[0] == SayHi);
    assert(middleware.call_spec(request).trace =~= chain.call_spec(request).trace);
}

/// An interceptor that observes: it lets every request and every response
/// through as it is, and notes the request line and the status code.
#[derive(Clone, Copy, Debug, PartialEq, Eq, Structural)]
pub struct Logger;

impl Logger {
    /// The note on a request: its method and its path.
    pub open spec fn request_note(request: RequestView) -> Seq<char> {
        request.method.token() + " "@ + request.path
    }

    /// The note on a response: its status code in decimal.
    pub open spec fn response_note(response: ResponseView) -> Seq<char> {
        decimal(response.status as nat)
    }
}

impl Interceptor for Logger {
    open spec fn pre_spec(&self, request: RequestView) -> PreOutcomeView {
        PreOutcomeView {
            action: PreActionView::Continue(request),
            note: Some(Logger::request_note(request)),
        }
    }

    fn pre(&self, request: Request) -> (outcome: PreOutcome) {
        let mut line = String::from_str(request.method.as_str());
        line.append(" ");
        line.append(request.path.as_str());
        PreOutcome { action: PreAction::Continue(request), note: Some(line) }
    }

    open spec fn post_spec(&self, response: ResponseView) -> PostOutcomeView {
        PostOutcomeView { result: Ok(response), note: Some(Logger::response_note(response)) }
    }

    fn post(&self, response: Response) -> (outcome: PostOutcome) {
        let mut line = String::new();
        push_decimal(&mut line, response.status as u64);
        PostOutcome { result: Ok(response), note: Some(line) }
    }

    open spec fn recover_spec(&self, error: ErrorView) -> Answer {
        Err(error)
    }

    fn recover(&self, error: Error) -> (result: Result<Response, Error>) {
        Err(error)
    }
}

/// An interceptor that lets a request on only if it carries a credential:
/// the header field `header` with the value `token`.
#[derive(Debug)]
pub struct AuthCheck {
    pub header: Vec<u8>,
    pub token: Vec<u8>,
}

/// What a request without the credential is answered with.
pub open spec fn unauthorized() -> ErrorView {
    ErrorView { kind: ErrorKind::Unauthorized, message: "unauthorized"@ }
}

impl AuthCheck {
    /// The check for the header field `header` with the value `token`.
    pub fn new(header: &[u8], token: &[u8]) -> (check: AuthCheck)
        ensures
            check.header@ == header@,
            check.token@ == token@,
    {
        AuthCheck { header: copy_bytes(header), token: copy_bytes(token) }
    }

    /// True if `request` carries the credential.
    pub open spec fn admits(&self, request: RequestView) -> bool {
        request.headers.contains_key(lower(self.header@)) && request.headers[lower(self.header@)]
            == self.token@
    }
}

impl Interceptor for AuthCheck {
    /// A request with the credential goes on as it is. Any other is answered
    /// at once with the fault response of an [`ErrorKind::Unauthorized`]
    /// error.
    open spec fn pre_spec(&self, request: RequestView) -> PreOutcomeView {
        PreOutcomeView {
            action: if self.admits(request) {
                PreActionView::Continue(request)
            } else {
                PreActionView::ShortCircuit(fault_response(unauthorized()))
            },
            note: None,
        }
    }

    fn pre(&self, request: Request) -> (outcome: PreOutcome) {
        let admitted = match request.headers.get(self.header.as_slice()) {
            Some(value) => bytes_eq(value.as_slice(), self.token.as_slice()),
            None => false,
        };
        if admitted {
            PreOutcome { action: PreAction::Continue(request), note: None }
        } else {
            let refusal = Error::new(ErrorKind::Unauthorized, "unauthorized").error_response();
            PreOutcome { action: PreAction::ShortCircuit(refusal), note: None }
        }
    }

    open spec fn post_spec(&self, response: ResponseView) -> PostOutcomeView {
        PostOutcomeView { result: Ok(response), note: None }
    }

    fn post(&self, response: Response) -> (outcome: PostOutcome) {
        PostOutcome { result: Ok(response), note: None }
    }

    open spec fn recover_spec(&self, error: ErrorView) -> Answer {
        Err(error)
    }

    fn recover(&self, error: Error) -> (result: Result<Response, Error>) {
        Err(error)
    }
}

/// An interceptor that gives every response the header field `name`, with
/// the value `value`, unless the response has a field of that name already.
#[derive(Debug)]
pub struct InjectHeader {
    pub name: Vec<u8>,
    pub value: Vec<u8>,
}

impl InjectHeader {
    /// The interceptor for the field `name` with the value `value`.
    pub fn new(name: &[u8], value: &[u8]) -> (inject: InjectHeader)
        ensures
            inject.name@ == name@,
            inject.value@ == value@,
    {
        InjectHeader { name: copy_bytes(name), value: copy_bytes(value) }
    }

    /// `response` with the field, where it had none of that name.
    pub open spec fn injected(&self, response: ResponseView) -> ResponseView {
        if response.headers.contains_key(lower(self.name@)) {
            response
        } else {
            response.with_header(self.name@, self.value@)
        }
    }
}

impl Interceptor for InjectHeader {
    open spec fn pre_spec(&self, request: RequestView) -> PreOutcomeView {
        PreOutcomeView { action: PreActionView::Continue(request), note: None }
    }

    fn pre(&self, request: Request) -> (outcome: PreOutcome) {
        PreOutcome { action: PreAction::Continue(request), note: None }
    }

    open spec fn post_spec(&self, response: ResponseView) -> PostOutcomeView {
        PostOutcomeView { result: Ok(self.injected(response)), note: None }
    }

    fn post(&self, response: Response) -> (outcome: PostOutcome) {
        if response.headers.contains_key(self.name.as_slice()) {
            PostOutcome { result: Ok(response), note: None }
        } else {
            PostOutcome {
                result: Ok(response.with_header(self.name.as_slice(), self.value.as_slice())),
                note: None,
            }
        }
    }

    open spec fn recover_spec(&self, error: ErrorView) -> Answer {
        Err(error)
    }

    fn recover(&self, error: Error) -> (result: Result<Response, Error>) {
        Err(error)
    }
}

/// The media type that [`render_500`] gives a response.
pub open spec fn error_media_type() -> Seq<u8> {
    encode_utf8("Error"@)
}

/// Marks `res` as the report of a server fault: sets its `content-type`
/// field to `Error`, and leaves the rest as it is.
pub fn render_500(res: Response) -> (rendered: Response)
    ensures
        rendered@ == res@.with_header(content_type(), error_media_type()),
{
    res.with_header("content-type".as_bytes(), "Error".as_bytes())
}

/// An error-handling interceptor for server faults: it renders every
/// response with the status 500, and puts the rendered fault response in the
/// place of every error whose status is 500.
#[derive(Clone, Copy, Debug, PartialEq, Eq, Structural)]
pub struct Render500;

impl Interceptor for Render500 {
    open spec fn pre_spec(&self, request: RequestView) -> PreOutcomeView {
        PreOutcomeView { action: PreActionView::Continue(request), note: None }
    }

    fn pre(&self, request: Request) -> (outcome: PreOutcome) {
        PreOutcome { action: PreAction::Continue(request), note: None }
    }

    open spec fn post_spec(&self, response: ResponseView) -> PostOutcomeView {
        PostOutcomeView {
            result: Ok(
                if response.status == status::INTERNAL_SERVER_ERROR {
                    response.with_header(content_type(), error_media_type())
                } else {
                    response
                },
            ),
            note: None,
        }
    }

    fn post(&self, response: Response) -> (outcome: PostOutcome) {
        if response.status == status::INTERNAL_SERVER_ERROR {
            PostOutcome { result: Ok(render_500(response)), note: None }
        } else {
            PostOutcome { result: Ok(response), note: None }
        }
    }

    open spec fn recover_spec(&self, error: ErrorView) -> Answer {
        if error.kind.code() == status::INTERNAL_SERVER_ERROR {
            Ok(fault_response(error).with_header(content_type(), error_media_type()))
        } else {
            Err(error)
        }
    }

    fn recover(&self, error: Error) -> (result: Result<Response, Error>) {
        if error.status_code() == status::INTERNAL_SERVER_ERROR {
            Ok(render_500(error.error_response()))
        } else {
            Err(error)
        }
    }
}

/// Any of the interceptors that come with the library, so that a chain can
/// hold several kinds of them.
#[derive(Debug)]
pub enum Middleware {
    SayHi(SayHi),
    Logger(Logger),
    AuthCheck(AuthCheck),
    InjectHeader(InjectHeader),
    Render500(Render500),
}

impl Interceptor for Middleware {
    open spec fn pre_spec(&self, request: RequestView) -> PreOutcomeView {
        match self {
            Middleware::SayHi(inner) => inner.pre_spec(request),
            Middleware::Logger(inner) => inner.pre_spec(request),
            Middleware::AuthCheck(inner) => inner.pre_spec(request),
            Middleware::InjectHeader(inner) => inner.pre_spec(request),
            Middleware::Render500(inner) => inner.pre_spec(request),
        }
    }

    fn pre(&self, request: Request) -> (outcome: PreOutcome) {
        match self {
            Middleware::SayHi(inner) => inner.pre(request),
            Middleware::Logger(inner) => inner.pre(request),
            Middleware::AuthCheck(inner) => inner.pre(request),
            Middleware::InjectHeader(inner) => inner.pre(request),
            Middleware::Render500(inner) => inner.pre(request),
        }
    }

    open spec fn post_spec(&self, response: ResponseView) -> PostOutcomeView {
        match self {
            Middleware::SayHi(inner) => inner.post_spec(response),
            Middleware::Logger(inner) => inner.post_spec(response),
            Middleware::AuthCheck(inner) => inner.post_spec(response),
            Middleware::InjectHeader(inner) => inner.post_spec(response),
            Middleware::Render500(inner) => inner.post_spec(response),
        }
    }

    fn post(&self, response: Response) -> (outcome: PostOutcome) {
        match self {
            Middleware::SayHi(inner) => inner.post(response),
            Middleware::Logger(inner) => inner.post(response),
            Middleware::AuthCheck(inner) => inner.post(response),
            Middleware::InjectHeader(inner) => inner.post(response),
            Middleware::Render500(inner) => inner.post(response),
        }
    }

    open spec fn recover_spec(&self, error: ErrorView) -> Answer {
        match self {
            Middleware::SayHi(inner) => inner.recover_spec(error),
            Middleware::Logger(inner) => inner.recover_spec(error),
            Middleware::AuthCheck(inner) => inner.recover_spec(error),
            Middleware::InjectHeader(inner) => inner.recover_spec(error),
            Middleware::Render500(inner) => inner.recover_spec(error),
        }
    }

    fn recover(&self, error: Error) -> (result: Result<Response, Error>) {
        match self {
            Middleware::SayHi(inner) => inner.recover(error),
            Middleware::Logger(inner) => inner.recover(error),
            Middleware::AuthCheck(inner) => inner.recover(error),
            Middleware::InjectHeader(inner) => inner.recover(error),
            Middleware::Render500(inner) => inner.recover(error),
        }
    }
}

} // verus!
