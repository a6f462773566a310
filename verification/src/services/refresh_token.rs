//! Exchanging the token for a fresh one.

use vstd::prelude::*;
use crate::constants::REFRESH_TOKEN_PATH;
use crate::security::{role_claim, JwtToken, JwtTokenView};
use crate::services::login::session_view;
use crate::services::{
    bare_request,
    decode_error_response,
    error_message,
    is_error,
    sends,
    Call,
    Method,
    Reply,
};
use crate::text::opt_text;

verus! {

#[derive(Debug)]
pub struct RefreshTokenOutput {
    pub token: String,
}

/// Asks for a fresh token in exchange for `token`.
pub fn refresh_token(token: String) -> (r: Call<(), JwtToken>)
    ensures
        sends(r, Method::Get, REFRESH_TOKEN_PATH@, Some(token@), Seq::empty(), None),
{
    Call::Send(bare_request(Method::Get, REFRESH_TOKEN_PATH, Some(token)))
}

/// What a token received makes of the refresh.
pub open spec fn refresh_outcome(token: Seq<char>, claim: Option<Seq<char>>) -> Result<
    JwtTokenView,
    Seq<char>,
> {
    match JwtToken::of_claim(token, claim) {
        Some(session) => Ok(session),
        None => Err("Error constructing jwt"@),
    }
}

/// What the reply means.
pub fn refresh_token_response(reply: Reply<RefreshTokenOutput>) -> (r: Result<JwtToken, String>)
    ensures
        match reply {
            Reply::Success(Ok(output)) => session_view(r) == refresh_outcome(
                output.token@,
                role_claim(output.token@),
            ),
            Reply::Success(Err(e)) => r == Err::<JwtToken, String>(e),
            Reply::NoAnswer(e) => r == Err::<JwtToken, String>(e),
            Reply::Failure { status, error } => is_error(
                r,
                error_message(status, opt_text(error)),
            ),
        },
{
    match reply {
        Reply::Success(Ok(output)) => {
            match JwtToken::new(output.token) {
                Some(session) => Ok(session),
                None => Err("Error constructing jwt".to_owned()),
            }
        },
        Reply::Success(Err(e)) => Err(e),
        Reply::NoAnswer(e) => Err(e),
        Reply::Failure { status, error } => Err(decode_error_response(status, error)),
    }
}

} // verus!
