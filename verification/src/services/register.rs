//! Registering a user.

use vstd::prelude::*;
use crate::constants::REGISTER_PATH;
use crate::services::{
    bare_request,
    decode_error_response,
    error_message,
    is_client_error,
    is_error,
    sends,
    status_is_client_error,
    Call,
    Method,
    Reply,
};
use crate::text::opt_text;

verus! {

#[derive(Debug)]
pub struct RegisterInput {
    pub email: String,
    pub password: String,
}

pub struct RegisterInputView {
    pub email: Seq<char>,
    pub password: Seq<char>,
}

impl View for RegisterInput {
    type V = RegisterInputView;

    open spec fn view(&self) -> RegisterInputView {
        RegisterInputView { email: self.email@, password: self.password@ }
    }
}

#[derive(Debug)]
pub struct RegisterUserOutput {
    pub user_id: u128,
}

#[derive(Debug)]
pub enum RegisterResult {
    Registered(u128),
    BadRequest(String),
}

/// What the reply means. A status that blames the request is a refusal to
/// show; any other failure is an error.
pub fn map_result(reply: Reply<RegisterUserOutput>) -> (r: Result<RegisterResult, String>)
    ensures
        match reply {
            Reply::Success(Ok(output)) => r == Ok::<RegisterResult, String>(
                RegisterResult::Registered(output.user_id),
            ),
            Reply::Success(Err(e)) => r == Err::<RegisterResult, String>(e),
            Reply::NoAnswer(e) => r == Err::<RegisterResult, String>(e),
            Reply::Failure { status, error } => if is_client_error(status) {
                r matches Ok(RegisterResult::BadRequest(e)) && e@ == error_message(
                    status,
                    opt_text(error),
                )
            } else {
                is_error(r, error_message(status, opt_text(error)))
            },
        },
{
    match reply {
        Reply::Success(Ok(output)) => Ok(RegisterResult::Registered(output.user_id)),
        Reply::Success(Err(e)) => Err(e),
        Reply::NoAnswer(e) => Err(e),
        Reply::Failure { status, error } => {
            if status_is_client_error(status) {
                Ok(RegisterResult::BadRequest(decode_error_response(status, error)))
            } else {
                Err(decode_error_response(status, error))
            }
        },
    }
}

/// Asks to register the user.
pub fn register(register_input: RegisterInput) -> (r: Call<RegisterInput, RegisterResult>)
    ensures
        sends(r, Method::Post, REGISTER_PATH@, None, Seq::empty(), Some(register_input)),
{
    let mut request = bare_request(Method::Post, REGISTER_PATH, None);
    request.body = Some(register_input);
    Call::Send(request)
}

} // verus!
