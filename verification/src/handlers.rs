//! Terminal handlers, and what the handlers of an application answer with.

use vstd::prelude::*;
use vstd::string::StringExecFns;
use rand::Rng;
use crate::error::{result_view, Error, ErrorView};
use crate::headers::Headers;
use crate::interceptor::{handled, Exchange, ExchangeView, Service};
use crate::message::{
    content_type, lemma_content_type_is_lower, plain_text, Request, RequestView, Response,
    ResponseView,
};
use crate::status;
use crate::text::{
    decimal, parse_u8, parsed_unsigned, push_decimal, push_signed_decimal, signed_decimal,
};

verus! {

/// The handler that sends the request's body back.
#[derive(Clone, Copy, Debug, PartialEq, Eq, Structural)]
pub struct Echo;

impl Echo {
    /// The answer to `request`: status 200, marked as plain text, with the
    /// request's body.
    pub open spec fn answer(request: RequestView) -> ResponseView {
        ResponseView::empty(status::OK).with_header(content_type(), plain_text()).with_body(
            request.body,
        )
    }
}

impl Service for Echo {
    open spec fn call_spec(&self, request: RequestView) -> ExchangeView {
        handled(Ok(Echo::answer(request)))
    }

    fn call(&self, request: Request) -> (exchange: Exchange) {
        let response = Response::new(status::OK).with_header(
            "content-type".as_bytes(),
            "text/plain; charset=utf-8".as_bytes(),
        ).with_body(request.body);
        Exchange::handled(Ok(response))
    }
}

/// The handler that answers every request alike: with its response, or with
/// its error.
#[derive(Debug)]
pub struct Fixed {
    pub result: Result<Response, Error>,
}

impl Fixed {
    /// The handler that answers with `response`.
    pub fn respond(response: Response) -> (handler: Fixed)
        ensures
            handler.result == Ok::<Response, Error>(response),
    {
        Fixed { result: Ok(response) }
    }

    /// The handler that fails with `error`.
    pub fn fail(error: Error) -> (handler: Fixed)
        ensures
            handler.result == Err::<Response, Error>(error),
    {
        Fixed { result: Err(error) }
    }
}

impl Service for Fixed {
    open spec fn call_spec(&self, request: RequestView) -> ExchangeView {
        handled(result_view(self.result))
    }

    fn call(&self, request: Request) -> (exchange: Exchange) {
        let result = match &self.result {
            Ok(response) => Ok(response.clone()),
            Err(error) => Err(error.clone()),
        };
        Exchange::handled(result)
    }
}

/// A user as a path names one: `/{user_id}/{friend}`.
#[derive(Debug)]
pub struct User {
    pub user_id: u32,
    pub friend: String,
}

impl User {
    /// The user with the given number and friend.
    pub fn new(user_id: u32, friend: String) -> (user: User)
        ensures
            user.user_id == user_id,
            user.friend == friend,
    {
        User { user_id, friend }
    }
}

/// The greeting for the user `user_id` with the friend `friend`.
pub open spec fn welcome_text(friend: Seq<char>, user_id: u32) -> Seq<char> {
    "Welcome "@ + friend + ", user_id "@ + decimal(user_id as nat) + "!"@
}

/// Greets the user `user_id` with the friend `friend`.
pub fn get_user(user_id: u32, friend: &str) -> (text: String)
    ensures
        text@ == welcome_text(friend@, user_id),
{
    let mut text = String::from_str("Welcome ");
    text.append(friend);
    text.append(", user_id ");
    push_decimal(&mut text, user_id as u64);
    text.append("!");
    text
}

/// Welcomes the user `username`.
pub fn get_info(username: &str) -> (text: String)
    ensures
        text@ == "Welcome "@ + username@ + "!"@,
{
    let mut text = String::from_str("Welcome ");
    text.append(username);
    text.append("!");
    text
}

/// The number of the user that [`get_obj`] compares with.
pub const KNOWN_USER_ID: u32 = 18;

/// The answer of [`get_obj`] about the user number `user_id`.
pub open spec fn get_obj_text(user_id: u32) -> Seq<char> {
    if user_id == KNOWN_USER_ID {
        "Good! Equal user_id"@
    } else {
        "this is new User [user_id:"@ + decimal(KNOWN_USER_ID as nat) + ", friend:"@ + "dsl"@
            + "]"@
    }
}

/// Compares the user that the path names with the known user, number 18 with
/// the friend `dsl`: says so where the numbers are equal, and describes the
/// known user where they are not.
pub fn get_obj(info: &User) -> (text: String)
    ensures
        text@ == get_obj_text(info.user_id),
{
    let my_info = User::new(KNOWN_USER_ID, String::from_str("dsl"));
    if my_info.user_id == info.user_id {
        String::from_str("Good! Equal user_id")
    } else {
        let mut text = String::from_str("this is new User [user_id:");
        push_decimal(&mut text, my_info.user_id as u64);
        text.append(", friend:");
        text.append(my_info.friend.as_str());
        text.append("]");
        text
    }
}

/// The greeting for `username` of the age `age`.
pub open spec fn query_text(username: Seq<char>, age: u32) -> Seq<char> {
    "Hello "@ + username + " your age:"@ + decimal(age as nat)
}

/// Greets `username` of the age `age`.
pub fn query(username: &str, age: u32) -> (text: String)
    ensures
        text@ == query_text(username@, age),
{
    let mut text = String::from_str("Hello ");
    text.append(username);
    text.append(" your age:");
    push_decimal(&mut text, age as u64);
    text
}

/// Greets the application by its name.
pub fn get_state(app_name: &str) -> (text: String)
    ensures
        text@ == "Hello "@ + app_name@ + "!"@,
{
    let mut text = String::from_str("Hello ");
    text.append(app_name);
    text.append("!");
    text
}

/// Counts one more request and tells its number.
pub fn mutable_counter(counter: &mut i32) -> (text: String)
    requires
        *old(counter) < i32::MAX,
    ensures
        *final(counter) == *old(counter) + 1,
        text@ == "Request number : "@ + signed_decimal(*old(counter) + 1),
{
    *counter = *counter + 1;
    let mut text = String::from_str("Request number : ");
    push_signed_decimal(&mut text, *counter as i64);
    text
}

/// Tells a count.
pub fn show_count(count: u64) -> (text: String)
    ensures
        text@ == "count: "@ + decimal(count as nat),
{
    let mut text = String::from_str("count: ");
    push_decimal(&mut text, count);
    text
}

/// Tells a count that may be negative.
pub fn show_signed_count(count: i32) -> (text: String)
    ensures
        text@ == "count: "@ + signed_decimal(count as int),
{
    let mut text = String::from_str("count: ");
    push_signed_decimal(&mut text, count as i64);
    text
}

/// The number of a visit: one more than the number of the visit before, 1
/// for the first.
pub open spec fn next_visit(previous: Option<i32>) -> int {
    match previous {
        Some(count) => count + 1,
        None => 1,
    }
}

/// The number to store in the session for this visit, given the number that
/// the session holds.
pub fn visit(previous: Option<i32>) -> (count: i32)
    requires
        previous != Some(i32::MAX),
    ensures
        count == next_visit(previous),
{
    match previous {
        Some(count) => count + 1,
        None => 1,
    }
}

/// Tells the number of a visit.
pub fn counter_text(count: i32) -> (text: String)
    ensures
        text@ == "Counter is : "@ + signed_decimal(count as int),
{
    let mut text = String::from_str("Counter is : ");
    push_signed_decimal(&mut text, count as i64);
    text
}

/// Tells the number of a user.
pub fn user_detail(id: u32) -> (text: String)
    ensures
        text@ == "User detail: "@ + decimal(id as nat),
{
    let mut text = String::from_str("User detail: ");
    push_decimal(&mut text, id as u64);
    text
}

/// What a request for JSON carries.
#[derive(Debug)]
pub struct MyJsonReq {
    pub name: String,
}

/// What the answer to a request for JSON carries.
#[derive(Debug)]
pub struct MyJsonResponse {
    pub result: String,
}

/// Answers with the name that the request carries.
pub fn index_json(info: MyJsonReq) -> (resp: MyJsonResponse)
    ensures
        resp.result == info.name,
{
    let name: String = info.name;
    MyJsonResponse { result: name }
}

/// The line that tells the four values of a matched path.
pub open spec fn matches_text(v1: u8, v2: Seq<char>, v3: u8, v4: Seq<char>) -> Seq<char> {
    "Values "@ + decimal(v1 as nat) + ", "@ + v2 + ", "@ + decimal(v3 as nat) + ", "@ + v4
}

/// Tells the four values of a matched path: the first segment as it was
/// looked up by name and read as a number that fits `u8`, the second as it
/// was looked up by name, and the pair `v3`, `v4` as it was loaded from the
/// two segments. `None` where the first segment is no such number.
pub fn get_matches(v1: &[u8], v2: &str, v3: u8, v4: &str) -> (text: Option<String>)
    ensures
        match parsed_unsigned(v1@, u8::MAX as nat) {
            Some(n) => text matches Some(line) && line@ == matches_text(n as u8, v2@, v3, v4@),
            None => text is None,
        },
{
    match parse_u8(v1) {
        Some(v1) => {
            let mut text = String::from_str("Values ");
            push_decimal(&mut text, v1 as u64);
            text.append(", ");
            text.append(v2);
            text.append(", ");
            push_decimal(&mut text, v3 as u64);
            text.append(", ");
            text.append(v4);
            Some(text)
        },
        None => None,
    }
}

/// One answer or the other.
#[derive(Debug)]
pub enum RegisterResult {
    /// A response.
    A(Response),
    /// A text, or an error.
    B(Result<String, Error>),
}

/// What a [`RegisterResult`] holds, as mathematical values.
pub enum RegisterResultView {
    A(ResponseView),
    B(Result<Seq<char>, ErrorView>),
}

impl View for RegisterResult {
    type V = RegisterResultView;

    open spec fn view(&self) -> RegisterResultView {
        match self {
            RegisterResult::A(response) => RegisterResultView::A(response@),
            RegisterResult::B(Ok(text)) => RegisterResultView::B(Ok(text@)),
            RegisterResult::B(Err(error)) => RegisterResultView::B(Err(error@)),
        }
    }
}

/// The answer that goes with the number `rand_num`: a response that says so
/// for a number less than 5, a text that tells the number for any other.
pub open spec fn registered(rand_num: int) -> RegisterResultView {
    if rand_num < 5 {
        RegisterResultView::A(ResponseView::text(status::OK, "number less then 5"@))
    } else {
        RegisterResultView::B(Ok("Great! This number is "@ + signed_decimal(rand_num)))
    }
}

/// Picks the answer that goes with the number `rand_num`.
pub fn register(rand_num: i32) -> (result: RegisterResult)
    ensures
        result@ == registered(rand_num as int),
{
    if rand_num < 5 {
        RegisterResult::A(Response::text(status::OK, "number less then 5"))
    } else {
        let mut res = String::from_str("Great! This number is ");
        push_signed_decimal(&mut res, rand_num as i64);
        RegisterResult::B(Ok(res))
    }
}

/// `Rng::gen_range(0, 9)` on `rand::thread_rng()`: some number from 0 up to,
/// but without, 9. Which one is left open. The generator of the thread is
/// seeded by the operating system on its first use.
#[verifier::external_body]
fn random_below_nine() -> (rand_num: i32)
    ensures
        0 <= rand_num < 9,
{
    rand::thread_rng().gen_range(0, 9)
}

/// Draws a number from 0 to 8 at random and picks the answer that goes with
/// it.
pub fn register_at_random() -> (result: RegisterResult)
    ensures
        exists|rand_num: int| 0 <= rand_num < 9 && result@ == #[trigger] registered(rand_num),
{
    let rand_num = random_below_nine();
    register(rand_num)
}

/// A guard that admits the requests that tell the media type of their body.
#[derive(Clone, Copy, Debug, PartialEq, Eq, Structural)]
pub struct ContentTypeHeader;

impl ContentTypeHeader {
    /// True if `headers` has a `content-type` field.
    pub fn check(&self, headers: &Headers) -> (admitted: bool)
        ensures
            admitted == headers@.contains_key(content_type()),
    {
        proof {
            lemma_content_type_is_lower();
        }
        headers.contains_key("content-type".as_bytes())
    }
}

} // verus!
