//! Fetching one room.

use vstd::prelude::*;
use vstd::string::StringExecFns;
use crate::constants::GET_ROOM_PATH;
use crate::model::room::Room;
use crate::services::{
    bare_request,
    decode_error_response,
    error_message,
    is_forbidden,
    sends,
    status_is_forbidden,
    uuid_display,
    uuid_to_string,
    Call,
    Method,
    Reply,
};
use crate::text::opt_text;

verus! {

#[derive(Debug)]
pub enum GetRoomResult {
    Found(Room),
    BadRequest(String),
    Forbidden,
}

/// The request for the room with the given id.
pub fn get_room_request(token: &str, id: u128) -> (r: Call<(), GetRoomResult>)
    ensures
        sends(
            r,
            Method::Get,
            GET_ROOM_PATH@ + uuid_display(id),
            Some(token@),
            Seq::empty(),
            None,
        ),
{
    let path = GET_ROOM_PATH.to_owned().concat(uuid_to_string(id).as_str());
    Call::Send(bare_request(Method::Get, path.as_str(), Some(token.to_owned())))
}

/// Asks to fetch the room with the given id.
pub fn get_room(token_string: String, id: u128) -> (r: Call<(), GetRoomResult>)
    ensures
        sends(
            r,
            Method::Get,
            GET_ROOM_PATH@ + uuid_display(id),
            Some(token_string@),
            Seq::empty(),
            None,
        ),
{
    get_room_request(token_string.as_str(), id)
}

/// What the reply means. An error of the transport or of decoding is handed
/// on with its text.
pub fn get_room_response(reply: Reply<Room>) -> (r: Result<GetRoomResult, String>)
    ensures
        match reply {
            Reply::Success(Ok(room)) => r == Ok::<GetRoomResult, String>(GetRoomResult::Found(room)),
            Reply::Success(Err(e)) => r == Err::<GetRoomResult, String>(e),
            Reply::NoAnswer(e) => r == Err::<GetRoomResult, String>(e),
            Reply::Failure { status, error } => if is_forbidden(status) {
                r == Ok::<GetRoomResult, String>(GetRoomResult::Forbidden)
            } else {
                r matches Ok(GetRoomResult::BadRequest(e)) && e@ == error_message(
                    status,
                    opt_text(error),
                )
            },
        },
{
    match reply {
        Reply::Success(Ok(room)) => Ok(GetRoomResult::Found(room)),
        Reply::Success(Err(e)) => Err(e),
        Reply::NoAnswer(e) => Err(e),
        Reply::Failure { status, error } => {
            if status_is_forbidden(status) {
                Ok(GetRoomResult::Forbidden)
            } else {
                Ok(GetRoomResult::BadRequest(decode_error_response(status, error)))
            }
        },
    }
}

} // verus!
