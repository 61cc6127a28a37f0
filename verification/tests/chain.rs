use interceptor_chain::chain::{Chain, End, Outcome};
use interceptor_chain::error::{Error, ErrorKind};
use interceptor_chain::handlers::{Echo, Fixed};
use interceptor_chain::interceptor::{Entry, Exchange, Service, Stage};
use interceptor_chain::message::{Method, Request, Response};
use interceptor_chain::middleware::{
    AuthCheck, InjectHeader, Logger, Middleware, Render500, SayHi,
};

fn stages(trace: &[Entry]) -> Vec<Stage> {
    trace.iter().map(|entry| entry.stage).collect()
}

fn count(trace: &[Entry], stage: Stage) -> usize {
    trace.iter().filter(|entry| entry.stage == stage).count()
}

fn guarded_echo() -> Chain<Middleware, Echo> {
    Chain::new(Echo)
        .register(Middleware::Logger(Logger))
        .register(Middleware::AuthCheck(AuthCheck::new(b"Authorization", b"Bearer secret")))
}

fn echo_request() -> Request {
    Request::new(Method::Post, "/echo").with_body(b"hi".to_vec())
}

#[test]
fn echo_behind_logger_and_auth_check_answers_the_body() {
    let chain = guarded_echo();
    let request = echo_request().with_header(b"authorization", b"Bearer secret");
    let Outcome { response, trace } = chain.handle(request);
    assert_eq!(response.status, 200);
    assert_eq!(response.body, b"hi".to_vec());
    assert_eq!(
        stages(&trace),
        vec![Stage::Pre(0), Stage::Pre(1), Stage::Handle, Stage::Post(1), Stage::Post(0)]
    );
    assert_eq!(count(&trace, Stage::Pre(0)), 1);
    assert_eq!(count(&trace, Stage::Post(0)), 1);
    assert_eq!(trace[0].note.as_deref(), Some("POST /echo"));
    assert_eq!(trace[4].note.as_deref(), Some("200"));
}

#[test]
fn auth_check_rejects_a_request_without_the_header() {
    let chain = guarded_echo();
    let Outcome { response, trace } = chain.handle(echo_request());
    assert_eq!(response.status, 401);
    assert_eq!(count(&trace, Stage::Handle), 0);
    assert_eq!(stages(&trace), vec![Stage::Pre(0), Stage::Pre(1), Stage::Post(0)]);
    assert_eq!(response.body, b"unauthorized".to_vec());
    assert_eq!(trace[2].note.as_deref(), Some("401"));
}

#[test]
fn auth_check_rejects_a_wrong_token() {
    let chain = guarded_echo();
    let request = echo_request().with_header(b"Authorization", b"Bearer other");
    let outcome = chain.handle(request);
    assert_eq!(outcome.response.status, 401);
    assert_eq!(count(&outcome.trace, Stage::Handle), 0);
}

#[test]
fn full_pass_runs_pre_phases_in_order_and_post_phases_in_reverse() {
    let chain = Chain::new(Echo).register(SayHi).register(SayHi).register(SayHi);
    assert_eq!(chain.len(), 3);
    let outcome = chain.handle(echo_request());
    assert_eq!(
        stages(&outcome.trace),
        vec![
            Stage::Pre(0),
            Stage::Pre(1),
            Stage::Pre(2),
            Stage::Handle,
            Stage::Post(2),
            Stage::Post(1),
            Stage::Post(0),
        ]
    );
    assert_eq!(outcome.trace[1].note.as_deref(), Some("Hi from start. You requested: /echo"));
    assert_eq!(outcome.trace[3].note, None);
    assert_eq!(outcome.trace[5].note.as_deref(), Some("Hi from response"));
    assert_eq!(outcome.response.status, 200);
}

#[test]
fn chain_without_interceptors_is_the_terminal_handler() {
    let chain: Chain<SayHi, Echo> = Chain::new(Echo);
    let outcome = chain.handle(echo_request());
    assert_eq!(stages(&outcome.trace), vec![Stage::Handle]);
    assert_eq!(outcome.response.body, b"hi".to_vec());
}

#[test]
fn short_circuit_skips_what_lies_further_in() {
    let chain = Chain::from_parts(
        vec![
            Middleware::InjectHeader(InjectHeader::new(b"X-Version", b"0.2")),
            Middleware::AuthCheck(AuthCheck::new(b"x-token", b"t")),
            Middleware::SayHi(SayHi),
        ],
        Echo,
    );
    let outcome = chain.handle(echo_request());
    assert_eq!(stages(&outcome.trace), vec![Stage::Pre(0), Stage::Pre(1), Stage::Post(0)]);
    assert_eq!(outcome.response.status, 401);
    assert_eq!(outcome.response.headers.get(b"x-version"), Some(&b"0.2".to_vec()));
}

#[test]
fn unhandled_error_surfaces_with_the_status_of_its_kind() {
    let kinds = [
        (ErrorKind::BadRequest, 400u16),
        (ErrorKind::Unauthorized, 401),
        (ErrorKind::NotFound, 404),
        (ErrorKind::InternalError, 500),
    ];
    for (kind, code) in kinds {
        let chain = Chain::new(Fixed::fail(Error::new(kind, "it broke")))
            .register(Middleware::Logger(Logger))
            .register(Middleware::SayHi(SayHi));
        let outcome = chain.handle(echo_request());
        assert_eq!(outcome.response.status, code);
        assert_eq!(outcome.response.body, b"it broke".to_vec());
        assert_eq!(
            outcome.response.headers.get(b"Content-Type"),
            Some(&b"text/plain; charset=utf-8".to_vec())
        );
        assert_eq!(stages(&outcome.trace), vec![Stage::Pre(0), Stage::Pre(1), Stage::Handle]);
    }
}

#[test]
fn handled_error_gives_the_substituted_response() {
    let chain = Chain::new(Fixed::fail(Error::new(ErrorKind::InternalError, "it broke")))
        .register(Middleware::Render500(Render500))
        .register(Middleware::SayHi(SayHi));
    let outcome = chain.handle(echo_request());
    let substitute = interceptor_chain::middleware::render_500(
        Error::new(ErrorKind::InternalError, "it broke").error_response(),
    );
    assert_eq!(outcome.response, substitute);
    assert_eq!(outcome.response.status, 500);
    assert_eq!(outcome.response.headers.get(b"content-type"), Some(&b"Error".to_vec()));
    assert_eq!(
        stages(&outcome.trace),
        vec![Stage::Pre(0), Stage::Pre(1), Stage::Handle, Stage::Recover(0)]
    );
}

#[test]
fn error_handler_leaves_other_errors_alone() {
    let chain = Chain::new(Fixed::fail(Error::new(ErrorKind::NotFound, "no such page")))
        .register(Middleware::Render500(Render500));
    let outcome = chain.handle(echo_request());
    assert_eq!(outcome.response.status, 404);
    assert_eq!(
        outcome.response.headers.get(b"content-type"),
        Some(&b"text/plain; charset=utf-8".to_vec())
    );
    assert_eq!(stages(&outcome.trace), vec![Stage::Pre(0), Stage::Handle]);
}

#[test]
fn outer_post_phases_run_on_a_substituted_response() {
    let chain = Chain::new(Fixed::fail(Error::new(ErrorKind::InternalError, "it broke")))
        .register(Middleware::InjectHeader(InjectHeader::new(b"X-Version", b"0.2")))
        .register(Middleware::Render500(Render500));
    let outcome = chain.handle(echo_request());
    assert_eq!(
        stages(&outcome.trace),
        vec![Stage::Pre(0), Stage::Pre(1), Stage::Handle, Stage::Recover(1), Stage::Post(0)]
    );
    assert_eq!(outcome.response.headers.get(b"x-version"), Some(&b"0.2".to_vec()));
    assert_eq!(outcome.response.headers.get(b"content-type"), Some(&b"Error".to_vec()));
}

#[test]
fn handling_the_same_request_twice_gives_the_same_response() {
    let chain = guarded_echo();
    let request = echo_request().with_header(b"authorization", b"Bearer secret");
    let first = chain.handle(request.clone());
    let second = chain.handle(request);
    assert_eq!(first.response, second.response);
    assert_eq!(stages(&first.trace), stages(&second.trace));
    let notes = |trace: &[Entry]| trace.iter().map(|e| e.note.clone()).collect::<Vec<_>>();
    assert_eq!(notes(&first.trace), notes(&second.trace));
}

#[test]
fn way_in_stops_at_the_interceptor_that_answers() {
    let chain = guarded_echo();
    let descent = chain.enter(echo_request());
    assert_eq!(descent.depth, 1);
    assert_eq!(stages(&descent.trace), vec![Stage::Pre(0), Stage::Pre(1)]);
    match descent.end {
        End::Stopped(Ok(response)) => assert_eq!(response.status, 401),
        other => panic!("{:?}", other),
    }
}

#[test]
fn way_in_stops_at_the_interceptor_that_fails_and_arrives_otherwise() {
    let chain: Chain<SayHi, Echo> = Chain::new(Echo).register(SayHi).register(SayHi);
    let descent = chain.enter(echo_request());
    assert_eq!(descent.depth, 2);
    assert_eq!(stages(&descent.trace), vec![Stage::Pre(0), Stage::Pre(1)]);
    match descent.end {
        End::Arrived(request) => assert_eq!(request, echo_request()),
        other => panic!("{:?}", other),
    }
    let empty: Chain<SayHi, Echo> = Chain::new(Echo);
    let descent = empty.enter(echo_request());
    assert_eq!(descent.depth, 0);
    assert!(descent.trace.is_empty());
    assert!(matches!(descent.end, End::Arrived(_)));
}

#[test]
fn way_in_then_handler_then_way_out_is_handling() {
    let chain = guarded_echo();
    let request = echo_request().with_header(b"authorization", b"Bearer secret");
    let whole = chain.call(request.clone());
    let descent = chain.enter(request);
    let arrived = match descent.end {
        End::Arrived(request) => request,
        other => panic!("{:?}", other),
    };
    let handled = Echo.call(arrived);
    let mut trace = descent.trace;
    trace.extend(handled.trace);
    let outer = chain.leave(descent.depth, Exchange { result: handled.result, trace });
    assert_eq!(outer.result.unwrap(), whole.result.unwrap());
    assert_eq!(stages(&outer.trace), stages(&whole.trace));
}

#[test]
fn way_out_skips_post_phases_on_an_error_until_it_is_handled() {
    let chain = Chain::new(Echo)
        .register(Middleware::Logger(Logger))
        .register(Middleware::Render500(Render500))
        .register(Middleware::SayHi(SayHi));
    let failed = Exchange {
        result: Err(Error::new(ErrorKind::InternalError, "late")),
        trace: Vec::new(),
    };
    let outer = chain.leave(3, failed);
    assert_eq!(stages(&outer.trace), vec![Stage::Recover(1), Stage::Post(0)]);
    assert_eq!(outer.trace[1].note.as_deref(), Some("500"));
    assert_eq!(outer.result.unwrap().headers.get(b"content-type"), Some(&b"Error".to_vec()));
    let untouched = chain.leave(0, Exchange { result: Ok(Response::new(204)), trace: Vec::new() });
    assert!(untouched.trace.is_empty());
    assert_eq!(untouched.result.unwrap(), Response::new(204));
}

#[test]
fn chain_is_a_service_and_nests() {
    let inner = Chain::new(Echo).register(SayHi);
    let outer = Chain::new(inner).register(Logger);
    let exchange = outer.call(echo_request());
    assert_eq!(
        stages(&exchange.trace),
        vec![Stage::Pre(0), Stage::Pre(0), Stage::Handle, Stage::Post(0), Stage::Post(0)]
    );
    assert_eq!(exchange.trace[0].note.as_deref(), Some("POST /echo"));
    assert_eq!(exchange.trace[1].note.as_deref(), Some("Hi from start. You requested: /echo"));
    assert_eq!(exchange.result.unwrap().body, b"hi".to_vec());
}

#[test]
fn fixed_handler_answers_every_request_alike() {
    let handler = Fixed::respond(Response::text(200, "Hello world Rust!"));
    let first = handler.call(Request::new(Method::Get, "/hello"));
    let second = handler.call(echo_request());
    assert_eq!(first.result.as_ref().unwrap(), second.result.as_ref().unwrap());
    assert_eq!(first.result.unwrap().body, b"Hello world Rust!".to_vec());
}
