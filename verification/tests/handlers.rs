use interceptor_chain::custom_error::{index, user_error, MyError, UserError};
use interceptor_chain::handlers::{
    counter_text, get_info, get_matches, get_obj, get_state, get_user, index_json,
    mutable_counter, query, register, register_at_random, show_count, show_signed_count,
    user_detail, visit, ContentTypeHeader, Echo,
    MyJsonReq, RegisterResult, User,
};
use interceptor_chain::headers::Headers;
use interceptor_chain::interceptor::{Service, Stage};
use interceptor_chain::message::{Method, Request, Response};
use interceptor_chain::ws::{Message, MyWs, ProtocolError, Reply};

#[test]
fn echo_sends_the_body_back() {
    let exchange = Echo.call(Request::new(Method::Post, "/echo").with_body(b"hi".to_vec()));
    let response = exchange.result.unwrap();
    assert_eq!(response.status, 200);
    assert_eq!(response.body, b"hi".to_vec());
    assert_eq!(
        response.headers.get(b"content-type"),
        Some(&b"text/plain; charset=utf-8".to_vec())
    );
    assert_eq!(exchange.trace.len(), 1);
    assert_eq!(exchange.trace[0].stage, Stage::Handle);
}

#[test]
fn user_new_keeps_its_arguments() {
    let user = User::new(18, "dsl".to_string());
    assert_eq!(user.user_id, 18);
    assert_eq!(user.friend, "dsl");
}

#[test]
fn get_obj_compares_the_user_number() {
    assert_eq!(get_obj(&User::new(18, "anyone".to_string())), "Good! Equal user_id");
    assert_eq!(
        get_obj(&User::new(19, "dsl".to_string())),
        "this is new User [user_id:18, friend:dsl]"
    );
    assert_eq!(
        get_obj(&User::new(0, String::new())),
        "this is new User [user_id:18, friend:dsl]"
    );
}

#[test]
fn get_user_welcomes() {
    assert_eq!(get_user(7, "ann"), "Welcome ann, user_id 7!");
    assert_eq!(get_user(u32::MAX, ""), "Welcome , user_id 4294967295!");
}

#[test]
fn get_info_welcomes() {
    assert_eq!(get_info("ann"), "Welcome ann!");
}

#[test]
fn query_greets() {
    assert_eq!(query("bob", 30), "Hello bob your age:30");
}

#[test]
fn get_state_greets_the_application() {
    assert_eq!(get_state("Actix-web 3.0 demo"), "Hello Actix-web 3.0 demo!");
}

#[test]
fn mutable_counter_counts_up() {
    let mut counter = 0;
    assert_eq!(mutable_counter(&mut counter), "Request number : 1");
    assert_eq!(mutable_counter(&mut counter), "Request number : 2");
    assert_eq!(counter, 2);
    let mut negative = -5;
    assert_eq!(mutable_counter(&mut negative), "Request number : -4");
}

#[test]
fn show_count_tells_the_count() {
    assert_eq!(show_count(0), "count: 0");
    assert_eq!(show_count(12), "count: 12");
    assert_eq!(show_count(u64::MAX), "count: 18446744073709551615");
    assert_eq!(show_signed_count(12), "count: 12");
    assert_eq!(show_signed_count(-3), "count: -3");
}

#[test]
fn visit_starts_at_one_and_counts_up() {
    assert_eq!(visit(None), 1);
    assert_eq!(visit(Some(1)), 2);
    assert_eq!(visit(Some(-1)), 0);
    assert_eq!(visit(Some(i32::MAX - 1)), i32::MAX);
    assert_eq!(counter_text(1), "Counter is : 1");
    assert_eq!(counter_text(i32::MIN), "Counter is : -2147483648");
}

#[test]
fn user_detail_tells_the_number() {
    assert_eq!(user_detail(42), "User detail: 42");
}

#[test]
fn index_json_answers_with_the_name() {
    let resp = index_json(MyJsonReq { name: "rust".to_string() });
    assert_eq!(resp.result, "rust");
}

#[test]
fn get_matches_tells_the_segments_twice() {
    assert_eq!(
        get_matches(b"12", "abc", 12, "abc").as_deref(),
        Some("Values 12, abc, 12, abc")
    );
    assert_eq!(get_matches(b"+0", "", 255, "z").as_deref(), Some("Values 0, , 255, z"));
    assert_eq!(get_matches(b"256", "abc", 1, "abc"), None);
    assert_eq!(get_matches(b"x", "abc", 1, "abc"), None);
}

#[test]
fn register_answers_by_the_number() {
    for n in 0..5 {
        match register(n) {
            RegisterResult::A(response) => {
                assert_eq!(response, Response::text(200, "number less then 5"))
            }
            RegisterResult::B(_) => panic!("{} is less than 5", n),
        }
    }
    for n in 5..9 {
        match register(n) {
            RegisterResult::B(Ok(text)) => {
                assert_eq!(text, format!("Great! This number is {}", n))
            }
            _ => panic!("{} is not less than 5", n),
        }
    }
}

#[test]
fn register_at_random_gives_one_of_the_nine_answers() {
    for _ in 0..200 {
        match register_at_random() {
            RegisterResult::A(response) => {
                assert_eq!(response, Response::text(200, "number less then 5"))
            }
            RegisterResult::B(Ok(text)) => {
                let expected: Vec<String> =
                    (5..9).map(|n| format!("Great! This number is {}", n)).collect();
                assert!(expected.contains(&text), "{}", text);
            }
            RegisterResult::B(Err(error)) => panic!("{:?}", error),
        }
    }
}

#[test]
fn content_type_guard_looks_for_the_field() {
    let mut headers = Headers::new();
    assert!(!ContentTypeHeader.check(&headers));
    headers.insert(b"Content-Length", b"0");
    assert!(!ContentTypeHeader.check(&headers));
    headers.insert(b"CONTENT-TYPE", b"application/json");
    assert!(ContentTypeHeader.check(&headers));
}

#[test]
fn my_error_status_codes_and_texts() {
    assert_eq!(MyError::InternalError.status_code(), 500);
    assert_eq!(MyError::BadClientData.status_code(), 400);
    assert_eq!(MyError::Timeout.status_code(), 504);
    assert_eq!(MyError::InternalError.to_string(), "internal error");
    assert_eq!(MyError::BadClientData.to_string(), "bod request");
    assert_eq!(MyError::Timeout.to_string(), "timeout");
}

#[test]
fn my_error_response_is_an_html_page() {
    let response = MyError::Timeout.error_response();
    assert_eq!(response.status, 504);
    assert_eq!(response.body, b"timeout".to_vec());
    assert_eq!(
        response.headers.get(b"content-type"),
        Some(&b"text/html; charset=utf-8".to_vec())
    );
    assert_eq!(index(), Err(MyError::BadClientData));
}

#[test]
fn user_error_names_the_field() {
    let error = UserError::Validation { field: "username".to_string() };
    assert_eq!(error.to_string(), "Validation error on field: username");
    assert_eq!(error.status_code(), 400);
    let response = error.error_response();
    assert_eq!(response.status, 400);
    assert_eq!(response.body, b"Validation error on field: username".to_vec());
    assert_eq!(
        response.headers.get(b"content-type"),
        Some(&b"text/html; charset = utf-8".to_vec())
    );
    match user_error() {
        Err(UserError::Validation { field }) => assert_eq!(field, "username"),
        Ok(_) => panic!("the handler did not fail"),
    }
}

#[test]
fn socket_echoes_ping_text_and_binary() {
    let mut socket = MyWs;
    match socket.handle(Ok(Message::Ping(vec![1, 2, 3]))) {
        Some(Reply::Pong(bytes)) => assert_eq!(bytes, vec![1, 2, 3]),
        other => panic!("{:?}", other),
    }
    match socket.handle(Ok(Message::Text("hello".to_string()))) {
        Some(Reply::Text(text)) => assert_eq!(text, "hello"),
        other => panic!("{:?}", other),
    }
    match socket.handle(Ok(Message::Binary(vec![9]))) {
        Some(Reply::Binary(bytes)) => assert_eq!(bytes, vec![9]),
        other => panic!("{:?}", other),
    }
}

#[test]
fn socket_is_silent_on_everything_else() {
    let mut socket = MyWs;
    assert!(socket.handle(Ok(Message::Pong(vec![1]))).is_none());
    assert!(socket.handle(Ok(Message::Continuation)).is_none());
    assert!(socket.handle(Ok(Message::Close)).is_none());
    assert!(socket.handle(Ok(Message::Nop)).is_none());
    assert!(socket.handle(Err(ProtocolError)).is_none());
}
