use interceptor_chain::error::{settle, Error, ErrorKind};
use interceptor_chain::headers::{bytes_eq, copy_bytes, Headers};
use interceptor_chain::message::{Method, Request, Response};

#[test]
fn header_names_are_case_insensitive() {
    let mut headers = Headers::new();
    assert!(!headers.contains_key(b"Content-Type"));
    assert_eq!(headers.get(b"Content-Type"), None);
    headers.insert(b"Content-Type", b"text/plain");
    assert!(headers.contains_key(b"content-type"));
    assert!(headers.contains_key(b"CONTENT-TYPE"));
    assert_eq!(headers.get(b"cOnTeNt-TyPe"), Some(&b"text/plain".to_vec()));
    assert!(!headers.contains_key(b"content_type"));
}

#[test]
fn header_insert_replaces_the_value() {
    let mut headers = Headers::new();
    headers.insert(b"a", b"1");
    headers.insert(b"b", b"2");
    headers.insert(b"A", b"3");
    assert_eq!(headers.get(b"a"), Some(&b"3".to_vec()));
    assert_eq!(headers.get(b"b"), Some(&b"2".to_vec()));
}

#[test]
fn header_values_keep_their_case() {
    let mut headers = Headers::new();
    headers.insert(b"X", b"MiXeD");
    assert_eq!(headers.get(b"x"), Some(&b"MiXeD".to_vec()));
}

#[test]
fn headers_are_equal_whatever_the_order() {
    let mut one = Headers::new();
    one.insert(b"a", b"1");
    one.insert(b"b", b"2");
    let mut other = Headers::new();
    other.insert(b"B", b"2");
    other.insert(b"A", b"1");
    assert_eq!(one, other);
    assert!(one.is_within(&other));
    other.insert(b"c", b"3");
    assert_ne!(one, other);
    assert!(one.is_within(&other));
    assert!(!other.is_within(&one));
    one.insert(b"c", b"4");
    assert_ne!(one, other);
    assert_eq!(one.clone(), one);
}

#[test]
fn headers_list_every_field_once_under_its_lower_case_name() {
    let mut headers = Headers::new();
    assert!(headers.to_vec().is_empty());
    headers.insert(b"X-One", b"1");
    headers.insert(b"x-two", b"2");
    headers.insert(b"X-ONE", b"uno");
    let mut pairs = headers.to_vec();
    pairs.sort();
    assert_eq!(
        pairs,
        vec![(b"x-one".to_vec(), b"uno".to_vec()), (b"x-two".to_vec(), b"2".to_vec())]
    );
}

#[test]
fn byte_strings_compare_and_copy() {
    assert!(bytes_eq(b"", b""));
    assert!(bytes_eq(b"abc", b"abc"));
    assert!(!bytes_eq(b"abc", b"abd"));
    assert!(!bytes_eq(b"abc", b"ab"));
    assert_eq!(copy_bytes(b"xyz"), b"xyz".to_vec());
}

#[test]
fn request_builders() {
    let request = Request::new(Method::Post, "/echo")
        .with_header(b"Accept", b"*/*")
        .with_body(b"hi".to_vec());
    assert_eq!(request.method, Method::Post);
    assert_eq!(request.path, "/echo");
    assert_eq!(request.headers.get(b"accept"), Some(&b"*/*".to_vec()));
    assert_eq!(request.body, b"hi".to_vec());
    assert_eq!(request.clone(), request);
    assert_ne!(Request::new(Method::Get, "/echo"), Request::new(Method::Post, "/echo"));
}

#[test]
fn method_tokens() {
    let all = [
        (Method::Get, "GET"),
        (Method::Head, "HEAD"),
        (Method::Post, "POST"),
        (Method::Put, "PUT"),
        (Method::Delete, "DELETE"),
        (Method::Options, "OPTIONS"),
        (Method::Patch, "PATCH"),
    ];
    for (method, token) in all {
        assert_eq!(method.as_str(), token);
    }
}

#[test]
fn text_response_is_marked_as_plain_text() {
    let response = Response::text(200, "héllo");
    assert_eq!(response.status, 200);
    assert_eq!(response.body, "héllo".as_bytes().to_vec());
    assert_eq!(
        response.headers.get(b"content-type"),
        Some(&b"text/plain; charset=utf-8".to_vec())
    );
    assert_ne!(response, Response::new(200));
    assert_eq!(response.clone(), response);
}

#[test]
fn error_kinds_have_their_status_codes() {
    assert_eq!(ErrorKind::BadRequest.status_code(), 400);
    assert_eq!(ErrorKind::Unauthorized.status_code(), 401);
    assert_eq!(ErrorKind::NotFound.status_code(), 404);
    assert_eq!(ErrorKind::InternalError.status_code(), 500);
}

#[test]
fn fault_response_carries_status_and_message() {
    let error = Error::new(ErrorKind::NotFound, "no such page");
    assert_eq!(error.status_code(), 404);
    let response = error.error_response();
    assert_eq!(response, Response::text(404, "no such page"));
    assert_eq!(error.clone(), error);
}

#[test]
fn settle_keeps_a_response_and_reports_an_error() {
    assert_eq!(settle(Ok(Response::new(204))), Response::new(204));
    let error = Error::new(ErrorKind::InternalError, "boom");
    assert_eq!(settle(Err(error)), Response::text(500, "boom"));
}
