use interceptor_chain::chain::Chain;
use interceptor_chain::error::{Error, ErrorKind};
use interceptor_chain::handlers::{Echo, Fixed};
use interceptor_chain::interceptor::{Interceptor, PreAction, Service, Stage};
use interceptor_chain::message::{Method, Request, Response};
use interceptor_chain::middleware::{
    render_500, AuthCheck, InjectHeader, Logger, Render500, SayHi,
};

#[test]
fn say_hi_lets_the_request_on_and_greets() {
    let outcome = SayHi.pre(Request::new(Method::Get, "/middleware"));
    assert_eq!(outcome.note.as_deref(), Some("Hi from start. You requested: /middleware"));
    match outcome.action {
        PreAction::Continue(request) => assert_eq!(request.path, "/middleware"),
        _ => panic!("the greeting stopped the request"),
    }
    let after = SayHi.post(Response::new(200));
    assert_eq!(after.note.as_deref(), Some("Hi from response"));
    assert_eq!(after.result.unwrap(), Response::new(200));
}

#[test]
fn say_hi_lines() {
    assert_eq!(SayHi.start_line(""), "Hi from start. You requested: ");
    assert_eq!(SayHi.start_line("/a/b"), "Hi from start. You requested: /a/b");
    assert_eq!(SayHi.response_line(), "Hi from response");
}

#[test]
fn say_hi_middleware_greets_around_the_service() {
    let middleware = SayHi.new_transform(Echo);
    let exchange = middleware.call(Request::new(Method::Get, "/middleware").with_body(vec![1, 2]));
    let stages: Vec<Stage> = exchange.trace.iter().map(|e| e.stage).collect();
    assert_eq!(stages, vec![Stage::Pre(0), Stage::Handle, Stage::Post(0)]);
    assert_eq!(
        exchange.trace[0].note.as_deref(),
        Some("Hi from start. You requested: /middleware")
    );
    assert_eq!(exchange.trace[2].note.as_deref(), Some("Hi from response"));
    assert_eq!(exchange.result.unwrap().body, vec![1, 2]);
}

#[test]
fn say_hi_middleware_does_not_greet_an_error() {
    let failing = Fixed::fail(Error::new(ErrorKind::NotFound, "nothing here"));
    let exchange = SayHi.new_transform(failing).call(Request::new(Method::Get, "/x"));
    let stages: Vec<Stage> = exchange.trace.iter().map(|e| e.stage).collect();
    assert_eq!(stages, vec![Stage::Pre(0), Stage::Handle]);
    assert_eq!(exchange.result.unwrap_err(), Error::new(ErrorKind::NotFound, "nothing here"));
}

#[test]
fn say_hi_middleware_is_the_chain_of_one() {
    let request = Request::new(Method::Put, "/same").with_body(b"x".to_vec());
    let nested = SayHi.new_transform(Echo).call(request.clone());
    let listed = Chain::new(Echo).register(SayHi).call(request);
    assert_eq!(nested.result.unwrap(), listed.result.unwrap());
    assert_eq!(nested.trace.len(), listed.trace.len());
    for (a, b) in nested.trace.iter().zip(listed.trace.iter()) {
        assert_eq!(a.stage, b.stage);
        assert_eq!(a.note, b.note);
    }
}

#[test]
fn logger_notes_request_line_and_status() {
    let before = Logger.pre(Request::new(Method::Delete, "/users/7"));
    assert_eq!(before.note.as_deref(), Some("DELETE /users/7"));
    let after = Logger.post(Response::new(404));
    assert_eq!(after.note.as_deref(), Some("404"));
    assert_eq!(after.result.unwrap().status, 404);
}

#[test]
fn auth_check_reads_the_header_name_without_regard_to_case() {
    let check = AuthCheck::new(b"X-Token", b"abc");
    let admitted = check.pre(Request::new(Method::Get, "/").with_header(b"x-TOKEN", b"abc"));
    assert!(matches!(admitted.action, PreAction::Continue(_)));
    let wrong_case_value =
        check.pre(Request::new(Method::Get, "/").with_header(b"x-token", b"ABC"));
    match wrong_case_value.action {
        PreAction::ShortCircuit(response) => {
            assert_eq!(response.status, 401);
            let refusal = Error::new(ErrorKind::Unauthorized, "unauthorized").error_response();
            assert_eq!(response, refusal);
        }
        _ => panic!("a wrong token was admitted"),
    }
}

#[test]
fn inject_header_keeps_a_field_that_is_there() {
    let inject = InjectHeader::new(b"X-Version", b"0.2");
    let fresh = inject.post(Response::new(200)).result.unwrap();
    assert_eq!(fresh.headers.get(b"x-version"), Some(&b"0.2".to_vec()));
    let kept = inject.post(Response::new(200).with_header(b"x-VERSION", b"9")).result.unwrap();
    assert_eq!(kept.headers.get(b"X-Version"), Some(&b"9".to_vec()));
}

#[test]
fn render_500_sets_the_content_type() {
    let rendered = render_500(Response::text(500, "oops").with_header(b"x", b"y"));
    assert_eq!(rendered.status, 500);
    assert_eq!(rendered.body, b"oops".to_vec());
    assert_eq!(rendered.headers.get(b"Content-Type"), Some(&b"Error".to_vec()));
    assert_eq!(rendered.headers.get(b"x"), Some(&b"y".to_vec()));
}

#[test]
fn render_500_interceptor_handles_only_server_faults() {
    let fault = Render500.post(Response::new(500)).result.unwrap();
    assert_eq!(fault.headers.get(b"content-type"), Some(&b"Error".to_vec()));
    let fine = Render500.post(Response::new(200)).result.unwrap();
    assert_eq!(fine, Response::new(200));
    let recovered = Render500.recover(Error::new(ErrorKind::InternalError, "x")).unwrap();
    assert_eq!(recovered.status, 500);
    assert_eq!(recovered.body, b"x".to_vec());
    assert_eq!(recovered.headers.get(b"content-type"), Some(&b"Error".to_vec()));
    let declined = Render500.recover(Error::new(ErrorKind::BadRequest, "x")).unwrap_err();
    assert_eq!(declined, Error::new(ErrorKind::BadRequest, "x"));
}
