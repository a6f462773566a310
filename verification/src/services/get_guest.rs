//! Fetching one guest.

use vstd::prelude::*;
use vstd::string::StringExecFns;
use crate::constants::GET_GUEST_PATH;
use crate::model::guest::{Guest, GuestDto};
use crate::services::{
    bare_request,
    decode_error_response,
    error_message,
    is_forbidden,
    sends,
    status_is_forbidden,
    uuid_display,
    uuid_to_string,
    Call,
    Method,
    Reply,
};
use crate::text::opt_text;

verus! {

#[derive(Debug)]
pub enum GetGuestResult {
    Found(Box<Guest>),
    BadRequest(String),
    Forbidden,
}

/// The request for the guest with the given id.
pub fn get_guest_request(token: &str, id: u128) -> (r: Call<(), GetGuestResult>)
    ensures
        sends(
            r,
            Method::Get,
            GET_GUEST_PATH@ + uuid_display(id),
            Some(token@),
            Seq::empty(),
            None,
        ),
{
    let path = GET_GUEST_PATH.to_owned().concat(uuid_to_string(id).as_str());
    Call::Send(bare_request(Method::Get, path.as_str(), Some(token.to_owned())))
}

/// Asks to fetch the guest with the given id.
pub fn get_guest(token: String, guest_id: u128) -> (r: Call<(), GetGuestResult>)
    ensures
        sends(
            r,
            Method::Get,
            GET_GUEST_PATH@ + uuid_display(guest_id),
            Some(token@),
            Seq::empty(),
            None,
        ),
{
    get_guest_request(token.as_str(), guest_id)
}

/// What the reply to the request for the guest `id` means. The guest found
/// is the one that the body describes, under that id.
pub fn get_guest_response(reply: Reply<GuestDto>, id: u128) -> (r: Result<GetGuestResult, String>)
    ensures
        match reply {
            Reply::Success(Ok(dto)) => r matches Ok(GetGuestResult::Found(guest)) && guest@
                == dto@.with_id(id),
            Reply::Success(Err(e)) => r == Err::<GetGuestResult, String>(e),
            Reply::NoAnswer(e) => r == Err::<GetGuestResult, String>(e),
            Reply::Failure { status, error } => if is_forbidden(status) {
                r == Ok::<GetGuestResult, String>(GetGuestResult::Forbidden)
            } else {
                r matches Ok(GetGuestResult::BadRequest(e)) && e@ == error_message(
                    status,
                    opt_text(error),
                )
            },
        },
{
    match reply {
        Reply::Success(Ok(dto)) => Ok(GetGuestResult::Found(Box::new(dto.convert_with_id(id)))),
        Reply::Success(Err(e)) => Err(e),
        Reply::NoAnswer(e) => Err(e),
        Reply::Failure { status, error } => {
            if status_is_forbidden(status) {
                Ok(GetGuestResult::Forbidden)
            } else {
                Ok(GetGuestResult::BadRequest(decode_error_response(status, error)))
            }
        },
    }
}

} // verus!
