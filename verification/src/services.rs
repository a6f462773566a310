//! The calls to the server, each split into what is sent and what is made of
//! the answer. Sending itself is left to the caller.

pub mod add_guest;
pub mod add_room;
pub mod find_guest;
pub mod find_unoccupied_rooms;
pub mod get_guest;
pub mod get_room;
pub mod login;
pub mod logout;
pub mod refresh_token;
pub mod register;
pub mod reset_password;
pub mod send_otp;

use vstd::prelude::*;
use vstd::string::StringExecFns;
use crate::constants::BASE_URL;
use crate::text::opt_text;

verus! {

#[derive(Debug, Clone, Copy, PartialEq, Eq, Structural)]
pub enum Method {
    Get,
    Post,
}

/// A request to the server. Every request is sent with the content type
/// `application/json`; `bearer` is the token of the `Authorization` header,
/// `query` the parameters after the path, `body` what is sent as JSON.
#[derive(Debug)]
pub struct Request<B> {
    pub method: Method,
    pub url: String,
    pub bearer: Option<String>,
    pub query: Vec<(&'static str, String)>,
    pub body: Option<B>,
}

/// What a service does with its input: answer at once, or send a request
/// and make its answer of the reply.
#[derive(Debug)]
pub enum Call<B, R> {
    Answer(Result<R, String>),
    Send(Request<B>),
}

/// The server's reply, as far as the transport got.
#[derive(Debug)]
pub enum Reply<T> {
    /// The request could not be sent or no reply came; holds the error's text.
    NoAnswer(String),
    /// A reply with a status from 200 to 299; holds the decoded body, or the
    /// text of the error met in decoding it.
    Success(Result<T, String>),
    /// A reply with any other status; holds the `error` field of its body,
    /// where the body was JSON with such a field.
    Failure { status: u16, error: Option<String> },
}

/// Whether a status reports success.
pub open spec fn is_success(status: u16) -> bool {
    200 <= status <= 299
}

/// Whether a status reports that the session is not, or no longer, good for
/// the request.
pub open spec fn is_forbidden(status: u16) -> bool {
    status == 401 || status == 403
}

/// Whether a status blames the request.
pub open spec fn is_client_error(status: u16) -> bool {
    400 <= status <= 499
}

pub fn status_is_success(status: u16) -> (r: bool)
    ensures
        r == is_success(status),
{
    200 <= status && status <= 299
}

pub fn status_is_forbidden(status: u16) -> (r: bool)
    ensures
        r == is_forbidden(status),
{
    status == 401 || status == 403
}

pub fn status_is_client_error(status: u16) -> (r: bool)
    ensures
        r == is_client_error(status),
{
    400 <= status && status <= 499
}

/// The message for a reply that reports failure: nothing for a status of
/// success, else the `error` field of the body, else a fixed text.
pub open spec fn error_message(status: u16, error: Option<Seq<char>>) -> Seq<char> {
    if is_success(status) {
        Seq::empty()
    } else {
        match error {
            Some(e) => e,
            None => "Unexpected error"@,
        }
    }
}

/// The message to show for a reply that reports failure.
pub fn decode_error_response(status: u16, error: Option<String>) -> (r: String)
    ensures
        r@ == error_message(status, opt_text(error)),
{
    if status_is_success(status) {
        String::new()
    } else {
        match error {
            Some(e) => e,
            None => "Unexpected error".to_owned(),
        }
    }
}

/// The address of a path on the server.
pub fn url_of(path: &str) -> (r: String)
    ensures
        r@ == BASE_URL@ + path@,
{
    BASE_URL.to_owned().concat(path)
}

/// The parameters of a query as names and values.
pub open spec fn query_view(query: Seq<(&'static str, String)>) -> Seq<(Seq<char>, Seq<char>)> {
    Seq::new(query.len(), |i: int| (query[i].0@, query[i].1@))
}

/// The parameter for an optional value: one where there is a value, none
/// otherwise.
pub open spec fn optional_parameter(name: Seq<char>, value: Option<Seq<char>>) -> Seq<
    (Seq<char>, Seq<char>),
> {
    match value {
        Some(v) => seq![(name, v)],
        None => Seq::empty(),
    }
}

/// Appends the parameter for an optional value.
pub fn push_optional(query: &mut Vec<(&'static str, String)>, name: &'static str, value: Option<String>)
    ensures
        query_view(final(query)@) == query_view(old(query)@) + optional_parameter(
            name@,
            opt_text(value),
        ),
{
    match value {
        Some(v) => {
            query.push((name, v));
        },
        None => {},
    }
}

/// An id as the server writes it: thirty-two hexadecimal digits in five
/// hyphenated groups.
pub uninterp spec fn uuid_display(id: u128) -> Seq<char>;

/// `uuid::Uuid::from_u128` followed by the `Display` of `Uuid`: the
/// hyphenated lower-case form of the id with these 128 bits.
#[verifier::external_body]
pub(crate) fn uuid_to_string(id: u128) -> (r: String)
    ensures
        r@ == uuid_display(id),
{
    uuid::Uuid::from_u128(id).to_string()
}

/// A status as `reqwest::StatusCode` shows it: `None` where the number is no
/// status code, else the number and the reason that belongs to it.
pub uninterp spec fn status_display(status: u16) -> Option<Seq<char>>;

/// `reqwest::StatusCode::from_u16` followed by the `Display` of
/// `StatusCode`. A number that the crate refuses gives `None`.
#[verifier::external_body]
pub(crate) fn status_to_string(status: u16) -> (r: Option<String>)
    ensures
        opt_text(r) == status_display(status),
{
    match reqwest::StatusCode::from_u16(status) {
        Ok(code) => Some(code.to_string()),
        Err(_) => None,
    }
}

/// Whether `call` sends exactly this request.
pub open spec fn sends<B, R>(
    call: Call<B, R>,
    method: Method,
    path: Seq<char>,
    bearer: Option<Seq<char>>,
    query: Seq<(Seq<char>, Seq<char>)>,
    body: Option<B>,
) -> bool {
    call matches Call::Send(request) && request.method == method && request.url@ == BASE_URL@
        + path && opt_text(request.bearer) == bearer && query_view(request.query@) == query
        && request.body == body
}

/// Whether `call` answers at once with this error.
pub open spec fn answers_error<B, R>(call: Call<B, R>, message: Seq<char>) -> bool {
    call matches Call::Answer(Err(e)) && e@ == message
}

/// Whether `result` is this error.
pub open spec fn is_error<R>(result: Result<R, String>, message: Seq<char>) -> bool {
    result matches Err(e) && e@ == message
}

/// A request that carries the token and nothing else.
pub fn bare_request<B>(method: Method, path: &str, bearer: Option<String>) -> (r: Request<B>)
    ensures
        r.method == method,
        r.url@ == BASE_URL@ + path@,
        r.bearer == bearer,
        r.query@.len() == 0,
        query_view(r.query@) == Seq::<(Seq<char>, Seq<char>)>::empty(),
        r.body is None,
{
    Request { method, url: url_of(path), bearer, query: Vec::new(), body: None }
}

} // verus!
