//! Logging out.

use vstd::prelude::*;
use crate::constants::LOGOUT_PATH;
use crate::services::{bare_request, is_error, sends, Call, Method, Reply};

verus! {

/// The request that ends the session of `token`; with no token the header
/// carries an empty one.
pub fn logout_request(token: Option<String>) -> (r: Call<(), ()>)
    ensures
        sends(
            r,
            Method::Post,
            LOGOUT_PATH@,
            Some(
                match token {
                    Some(t) => t@,
                    None => Seq::empty(),
                },
            ),
            Seq::empty(),
            None,
        ),
{
    let bearer = match token {
        Some(t) => t,
        None => String::new(),
    };
    Call::Send(bare_request(Method::Post, LOGOUT_PATH, Some(bearer)))
}

/// Asks to end the session; where there is none, all is done already.
pub fn logout(token: Option<String>) -> (r: Call<(), ()>)
    ensures
        match token {
            Some(t) => sends(r, Method::Post, LOGOUT_PATH@, Some(t@), Seq::empty(), None),
            None => r == Call::<(), ()>::Answer(Ok(())),
        },
{
    if token.is_none() {
        return Call::Answer(Ok(()));
    }
    logout_request(token)
}

/// What the reply means: the session has ended exactly where the server
/// reports success.
pub fn logout_response(reply: Reply<()>) -> (r: Result<(), String>)
    ensures
        match reply {
            Reply::Success(_) => r is Ok,
            _ => is_error(r, "Failed to logout"@),
        },
{
    match reply {
        Reply::Success(_) => Ok(()),
        _ => Err("Failed to logout".to_owned()),
    }
}

} // verus!
