//! Adding a room.

use vstd::prelude::*;
use crate::components::validator::{verdict, Validator, MAX_BED_COUNT, MIN_BED_COUNT};
use crate::constants::ADD_ROOM_PATH;
use crate::model::bathroom_type::BathroomType;
use crate::model::bed::Bed;
use crate::services::{
    answers_error,
    bare_request,
    decode_error_response,
    error_message,
    is_error,
    is_forbidden,
    sends,
    status_is_forbidden,
    Call,
    Method,
    Reply,
};
use crate::text::{opt_text, result_text};

verus! {

/// What is sent to add a room. The price is in the currency's minor unit.
#[derive(Debug)]
pub struct AddRoomInput {
    pub beds: Vec<Bed>,
    pub price: i64,
    pub floor: i16,
    pub room_number: String,
    pub bathroom_type: BathroomType,
}

pub struct AddRoomInputView {
    pub beds: Seq<Bed>,
    pub price: i64,
    pub floor: i16,
    pub room_number: Seq<char>,
    pub bathroom_type: BathroomType,
}

impl View for AddRoomInput {
    type V = AddRoomInputView;

    open spec fn view(&self) -> AddRoomInputView {
        AddRoomInputView {
            beds: self.beds@,
            price: self.price,
            floor: self.floor,
            room_number: self.room_number@,
            bathroom_type: self.bathroom_type,
        }
    }
}

#[derive(Debug)]
pub enum AddRoomResult {
    Added(u128),
    Forbidden,
    BadRequest(String),
}

/// Whether every group of beds has a count that is allowed.
pub open spec fn beds_in_range(beds: Seq<Bed>) -> bool {
    forall|i: int| 0 <= i < beds.len() ==> MIN_BED_COUNT <= (#[trigger] beds[i]).count <= MAX_BED_COUNT
}

/// The first complaint about a room's numbers: the beds are looked at first,
/// then the floor, then the price.
pub open spec fn room_verdict(input: AddRoomInputView) -> Result<(), Seq<char>> {
    if !beds_in_range(input.beds) {
        Err("Invalid bed count"@)
    } else if Validator::floor_verdict(input.floor) is Err {
        Validator::floor_verdict(input.floor)
    } else {
        Validator::price_verdict(input.price)
    }
}

/// Checks the count of every group of beds.
pub fn validate_beds(input: &AddRoomInput) -> (r: Result<(), String>)
    ensures
        result_text(r) == verdict(beds_in_range(input.beds@), "Invalid bed count"@),
{
    let mut i: usize = 0;
    while i < input.beds.len()
        invariant
            i <= input.beds@.len(),
            beds_in_range(input.beds@.take(i as int)),
        decreases input.beds@.len() - i,
    {
        match Validator::validate_bed(&input.beds[i]) {
            Ok(()) => {},
            Err(e) => {
                return Err(e);
            },
        }
        i = i + 1;
    }
    assert(input.beds@.take(i as int) =~= input.beds@);
    Ok(())
}

/// The request that adds the room; without a token the answer is
/// `Forbidden` and nothing is sent.
pub fn add_room_request(input: AddRoomInput, token: Option<String>) -> (r: Call<
    AddRoomInput,
    AddRoomResult,
>)
    ensures
        match token {
            Some(t) => sends(r, Method::Post, ADD_ROOM_PATH@, Some(t@), Seq::empty(), Some(input)),
            None => r == Call::<AddRoomInput, AddRoomResult>::Answer(Ok(AddRoomResult::Forbidden)),
        },
{
    match token {
        Some(t) => {
            let mut request = bare_request(Method::Post, ADD_ROOM_PATH, Some(t));
            request.body = Some(input);
            Call::Send(request)
        },
        None => Call::Answer(Ok(AddRoomResult::Forbidden)),
    }
}

/// Checks the room's numbers and, where they are in order, asks to send it.
pub fn add_room(token: Option<String>, add_room_input: AddRoomInput) -> (r: Call<
    AddRoomInput,
    AddRoomResult,
>)
    ensures
        match room_verdict(add_room_input@) {
            Err(complaint) => answers_error(r, complaint),
            Ok(_) => match token {
                Some(t) => sends(
                    r,
                    Method::Post,
                    ADD_ROOM_PATH@,
                    Some(t@),
                    Seq::empty(),
                    Some(add_room_input),
                ),
                None => r == Call::<AddRoomInput, AddRoomResult>::Answer(
                    Ok(AddRoomResult::Forbidden),
                ),
            },
        },
{
    match validate_beds(&add_room_input) {
        Ok(()) => {},
        Err(e) => {
            return Call::Answer(Err(e));
        },
    }
    match Validator::validate_floor(add_room_input.floor) {
        Ok(()) => {},
        Err(e) => {
            return Call::Answer(Err(e));
        },
    }
    match Validator::validate_price(add_room_input.price) {
        Ok(()) => {},
        Err(e) => {
            return Call::Answer(Err(e));
        },
    }
    add_room_request(add_room_input, token)
}

/// What the reply means. The payload of a success is the new room's id.
pub fn add_room_response(reply: Reply<u128>) -> (r: Result<AddRoomResult, String>)
    ensures
        match reply {
            Reply::Success(Ok(id)) => r == Ok::<AddRoomResult, String>(AddRoomResult::Added(id)),
            Reply::Failure { status, error } => if is_forbidden(status) {
                r == Ok::<AddRoomResult, String>(AddRoomResult::Forbidden)
            } else {
                r matches Ok(AddRoomResult::BadRequest(e)) && e@ == error_message(
                    status,
                    opt_text(error),
                )
            },
            _ => is_error(r, "Unexpected error"@),
        },
{
    match reply {
        Reply::Success(Ok(id)) => Ok(AddRoomResult::Added(id)),
        Reply::Failure { status, error } => {
            if status_is_forbidden(status) {
                Ok(AddRoomResult::Forbidden)
            } else {
                Ok(AddRoomResult::BadRequest(decode_error_response(status, error)))
            }
        },
        _ => Err("Unexpected error".to_owned()),
    }
}

} // verus!
