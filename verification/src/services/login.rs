//! Logging in.

use vstd::prelude::*;
use crate::components::validator::Validator;
use crate::constants::LOGIN_PATH;
use crate::security::{role_claim, JwtToken, JwtTokenView};
use crate::services::{answers_error, bare_request, is_error, sends, Call, Method, Reply};

verus! {

#[derive(Debug)]
pub struct LoginInput {
    pub email: String,
    pub password: String,
}

#[derive(Debug)]
pub struct LoginOutput {
    pub token: String,
}

/// The request that logs in.
pub fn login_request(email: String, password: String) -> (r: Call<LoginInput, JwtToken>)
    ensures
        r matches Call::Send(request) && request.body matches Some(input) && input.email == email
            && input.password == password,
        sends(
            r,
            Method::Post,
            LOGIN_PATH@,
            None,
            Seq::empty(),
            r->Send_0.body,
        ),
{
    let mut request = bare_request(Method::Post, LOGIN_PATH, None);
    request.body = Some(LoginInput { email, password });
    Call::Send(request)
}

/// Checks the address and then the password, and asks to send them where
/// both are well formed.
pub fn login(validator: &Validator, email: String, password: String) -> (r: Call<
    LoginInput,
    JwtToken,
>)
    ensures
        match Validator::email_verdict(email@) {
            Err(complaint) => answers_error(r, complaint),
            Ok(_) => match Validator::password_verdict(password@) {
                Err(complaint) => answers_error(r, complaint),
                Ok(_) => {
                    &&& r matches Call::Send(request) && request.body matches Some(input)
                        && input.email == email && input.password == password
                    &&& sends(r, Method::Post, LOGIN_PATH@, None, Seq::empty(), r->Send_0.body)
                },
            },
        },
{
    match validator.validate_email(email.as_str()) {
        Ok(()) => {},
        Err(e) => {
            return Call::Answer(Err(e));
        },
    }
    match validator.validate_password(password.as_str()) {
        Ok(()) => {},
        Err(e) => {
            return Call::Answer(Err(e));
        },
    }
    login_request(email, password)
}

/// What a token received makes of the login: the session where a role can be
/// read from it.
pub open spec fn login_outcome(token: Seq<char>, claim: Option<Seq<char>>) -> Result<
    JwtTokenView,
    Seq<char>,
> {
    match JwtToken::of_claim(token, claim) {
        Some(session) => Ok(session),
        None => Err("Unexpected error"@),
    }
}

/// The view of a login's result.
pub open spec fn session_view(r: Result<JwtToken, String>) -> Result<
    JwtTokenView,
    Seq<char>,
> {
    match r {
        Ok(session) => Ok(session@),
        Err(e) => Err(e@),
    }
}

/// What the reply means. Whatever goes wrong before a token is there counts
/// as wrong credentials.
pub fn login_response(reply: Reply<LoginOutput>) -> (r: Result<JwtToken, String>)
    ensures
        match reply {
            Reply::Success(Ok(output)) => session_view(r) == login_outcome(
                output.token@,
                role_claim(output.token@),
            ),
            _ => is_error(r, "Incorrect credentials"@),
        },
{
    match reply {
        Reply::Success(Ok(output)) => {
            match JwtToken::new(output.token) {
                Some(session) => Ok(session),
                None => Err("Unexpected error".to_owned()),
            }
        },
        _ => Err("Incorrect credentials".to_owned()),
    }
}

} // verus!
