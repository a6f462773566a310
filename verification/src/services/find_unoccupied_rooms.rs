//! Searching for rooms that are free between two dates.

use vstd::prelude::*;
use crate::constants::FIND_UNOCCUPIED_ROOMS_PATH;
use crate::date::Date;
use crate::services::{
    bare_request,
    decode_error_response,
    error_message,
    is_forbidden,
    optional_parameter,
    push_optional,
    query_view,
    sends,
    status_is_forbidden,
    Call,
    Method,
    Reply,
};
use crate::text::{i16_to_string, int_text, opt_text};

verus! {

/// The stay and, where given, the bounds on how many a room sleeps.
#[derive(Debug, Clone, Copy, PartialEq, Eq, Structural)]
pub struct FindUnoccupiedRoomsInput {
    pub start_date: Date,
    pub end_date: Date,
    pub minimum_capacity: Option<i16>,
    pub maximum_capacity: Option<i16>,
}

/// An optional number in decimal notation.
pub open spec fn opt_number_text(number: Option<i16>) -> Option<Seq<char>> {
    match number {
        Some(n) => Some(int_text(n as int)),
        None => None,
    }
}

impl FindUnoccupiedRoomsInput {
    /// The query for this search: the two dates, then each bound that is
    /// there.
    pub open spec fn query(self) -> Seq<(Seq<char>, Seq<char>)> {
        seq![("startDate"@, self.start_date.text()), ("endDate"@, self.end_date.text())]
            + optional_parameter("minimumCapacity"@, opt_number_text(self.minimum_capacity))
            + optional_parameter("maximumCapacity"@, opt_number_text(self.maximum_capacity))
    }
}

#[derive(Debug)]
pub struct FindUnoccupiedRoomsOutput {
    pub room_ids: Vec<u128>,
}

#[derive(Debug)]
pub enum FindUnoccupiedRoomsResult {
    Found(Vec<u128>),
    BadRequest(String),
    Forbidden,
}

/// What the reply means. An error of the transport or of decoding is handed
/// on with its text.
pub fn map_response(reply: Reply<FindUnoccupiedRoomsOutput>) -> (r: Result<
    FindUnoccupiedRoomsResult,
    String,
>)
    ensures
        match reply {
            Reply::Success(Ok(output)) => r == Ok::<FindUnoccupiedRoomsResult, String>(
                FindUnoccupiedRoomsResult::Found(output.room_ids),
            ),
            Reply::Success(Err(e)) => r == Err::<FindUnoccupiedRoomsResult, String>(e),
            Reply::NoAnswer(e) => r == Err::<FindUnoccupiedRoomsResult, String>(e),
            Reply::Failure { status, error } => if is_forbidden(status) {
                r == Ok::<FindUnoccupiedRoomsResult, String>(FindUnoccupiedRoomsResult::Forbidden)
            } else {
                r matches Ok(FindUnoccupiedRoomsResult::BadRequest(e)) && e@ == error_message(
                    status,
                    opt_text(error),
                )
            },
        },
{
    match reply {
        Reply::Success(Ok(output)) => Ok(FindUnoccupiedRoomsResult::Found(output.room_ids)),
        Reply::Success(Err(e)) => Err(e),
        Reply::NoAnswer(e) => Err(e),
        Reply::Failure { status, error } => {
            if status_is_forbidden(status) {
                Ok(FindUnoccupiedRoomsResult::Forbidden)
            } else {
                Ok(FindUnoccupiedRoomsResult::BadRequest(decode_error_response(status, error)))
            }
        },
    }
}

/// The text of an optional number.
fn number_text(number: Option<i16>) -> (r: Option<String>)
    ensures
        opt_text(r) == opt_number_text(number),
{
    match number {
        Some(n) => Some(i16_to_string(n)),
        None => None,
    }
}

/// The parameters of the query for a search.
pub fn convert_input(input: FindUnoccupiedRoomsInput) -> (r: Vec<(&'static str, String)>)
    ensures
        query_view(r@) == input.query(),
{
    let mut query_params: Vec<(&'static str, String)> = Vec::new();
    query_params.push(("startDate", input.start_date.to_text()));
    query_params.push(("endDate", input.end_date.to_text()));
    push_optional(&mut query_params, "minimumCapacity", number_text(input.minimum_capacity));
    push_optional(&mut query_params, "maximumCapacity", number_text(input.maximum_capacity));
    query_params
}

/// The request for a search.
pub fn find_unoccupied_rooms_request(token: String, input: FindUnoccupiedRoomsInput) -> (r: Call<
    (),
    FindUnoccupiedRoomsResult,
>)
    ensures
        sends(r, Method::Get, FIND_UNOCCUPIED_ROOMS_PATH@, Some(token@), input.query(), None),
{
    let mut request = bare_request(Method::Get, FIND_UNOCCUPIED_ROOMS_PATH, Some(token));
    request.query = convert_input(input);
    Call::Send(request)
}

/// Asks to send the search; without a token the answer is `Forbidden` and
/// nothing is sent.
pub fn find_unoccupied_rooms(token: Option<String>, input: FindUnoccupiedRoomsInput) -> (r: Call<
    (),
    FindUnoccupiedRoomsResult,
>)
    ensures
        match token {
            Some(t) => sends(
                r,
                Method::Get,
                FIND_UNOCCUPIED_ROOMS_PATH@,
                Some(t@),
                input.query(),
                None,
            ),
            None => r == Call::<(), FindUnoccupiedRoomsResult>::Answer(
                Ok(FindUnoccupiedRoomsResult::Forbidden),
            ),
        },
{
    match token {
        Some(t) => find_unoccupied_rooms_request(t, input),
        None => Call::Answer(Ok(FindUnoccupiedRoomsResult::Forbidden)),
    }
}

} // verus!
