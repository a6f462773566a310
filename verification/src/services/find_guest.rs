//! Searching for guests.

use vstd::prelude::*;
use crate::constants::FIND_GUEST_PATH;
use crate::services::{
    bare_request,
    decode_error_response,
    error_message,
    is_forbidden,
    optional_parameter,
    push_optional,
    query_view,
    sends,
    status_is_forbidden,
    Call,
    Method,
    Reply,
};
use crate::text::opt_text;

verus! {

/// What to search by; a field left out narrows nothing.
#[derive(Debug)]
pub struct FindGuestInput {
    pub first_name: Option<String>,
    pub last_name: Option<String>,
    pub date_of_birth: Option<String>,
    pub ucn: Option<String>,
    pub phone_number: Option<String>,
}

pub struct FindGuestInputView {
    pub first_name: Option<Seq<char>>,
    pub last_name: Option<Seq<char>>,
    pub date_of_birth: Option<Seq<char>>,
    pub ucn: Option<Seq<char>>,
    pub phone_number: Option<Seq<char>>,
}

impl View for FindGuestInput {
    type V = FindGuestInputView;

    open spec fn view(&self) -> FindGuestInputView {
        FindGuestInputView {
            first_name: opt_text(self.first_name),
            last_name: opt_text(self.last_name),
            date_of_birth: opt_text(self.date_of_birth),
            ucn: opt_text(self.ucn),
            phone_number: opt_text(self.phone_number),
        }
    }
}

impl FindGuestInputView {
    /// The query for this search: one parameter for each field that is
    /// there, in a fixed order.
    pub open spec fn query(self) -> Seq<(Seq<char>, Seq<char>)> {
        optional_parameter("firstName"@, self.first_name) + optional_parameter(
            "lastName"@,
            self.last_name,
        ) + optional_parameter("dateOfBirth"@, self.date_of_birth) + optional_parameter(
            "phoneNumber"@,
            self.phone_number,
        ) + optional_parameter("ucn"@, self.ucn)
    }
}

#[derive(Debug)]
pub struct FindGuestOutput {
    pub guest_ids: Vec<u128>,
}

#[derive(Debug)]
pub enum FindGuestResult {
    Found(Vec<u128>),
    BadRequest(String),
    Forbidden,
}

/// The parameters of the query for a search.
pub fn convert_input(input: FindGuestInput) -> (r: Vec<(&'static str, String)>)
    ensures
        query_view(r@) == input@.query(),
{
    let mut query_params: Vec<(&'static str, String)> = Vec::new();
    push_optional(&mut query_params, "firstName", input.first_name);
    push_optional(&mut query_params, "lastName", input.last_name);
    push_optional(&mut query_params, "dateOfBirth", input.date_of_birth);
    push_optional(&mut query_params, "phoneNumber", input.phone_number);
    push_optional(&mut query_params, "ucn", input.ucn);
    query_params
}

/// The request for a search.
pub fn find_guest_request(token: String, input: FindGuestInput) -> (r: Call<(), FindGuestResult>)
    ensures
        sends(r, Method::Get, FIND_GUEST_PATH@, Some(token@), input@.query(), None),
{
    let mut request = bare_request(Method::Get, FIND_GUEST_PATH, Some(token));
    request.query = convert_input(input);
    Call::Send(request)
}

/// Asks to send the search; without a token the answer is `Forbidden` and
/// nothing is sent.
pub fn find_guest(token: Option<String>, input: FindGuestInput) -> (r: Call<(), FindGuestResult>)
    ensures
        match token {
            Some(t) => sends(r, Method::Get, FIND_GUEST_PATH@, Some(t@), input@.query(), None),
            None => r == Call::<(), FindGuestResult>::Answer(Ok(FindGuestResult::Forbidden)),
        },
{
    match token {
        Some(t) => find_guest_request(t, input),
        None => Call::Answer(Ok(FindGuestResult::Forbidden)),
    }
}

/// What the reply means. An error of the transport or of decoding is handed
/// on with its text.
pub fn find_guest_response(reply: Reply<FindGuestOutput>) -> (r: Result<FindGuestResult, String>)
    ensures
        match reply {
            Reply::Success(Ok(output)) => r == Ok::<FindGuestResult, String>(
                FindGuestResult::Found(output.guest_ids),
            ),
            Reply::Success(Err(e)) => r == Err::<FindGuestResult, String>(e),
            Reply::NoAnswer(e) => r == Err::<FindGuestResult, String>(e),
            Reply::Failure { status, error } => if is_forbidden(status) {
                r == Ok::<FindGuestResult, String>(FindGuestResult::Forbidden)
            } else {
                r matches Ok(FindGuestResult::BadRequest(e)) && e@ == error_message(
                    status,
                    opt_text(error),
                )
            },
        },
{
    match reply {
        Reply::Success(Ok(output)) => Ok(FindGuestResult::Found(output.guest_ids)),
        Reply::Success(Err(e)) => Err(e),
        Reply::NoAnswer(e) => Err(e),
        Reply::Failure { status, error } => {
            if status_is_forbidden(status) {
                Ok(FindGuestResult::Forbidden)
            } else {
                Ok(FindGuestResult::BadRequest(decode_error_response(status, error)))
            }
        },
    }
}

} // verus!
