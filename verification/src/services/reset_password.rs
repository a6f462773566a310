//! Setting a new password with a one-time code.

use vstd::prelude::*;
use vstd::string::StringExecFns;
use crate::constants::RESET_PASSWORD_PATH;
use crate::services::{
    bare_request,
    decode_error_response,
    error_message,
    is_client_error,
    is_error,
    sends,
    status_display,
    status_is_client_error,
    status_to_string,
    Call,
    Method,
    Reply,
};
use crate::text::opt_text;

verus! {

#[derive(Debug)]
pub struct ResetPasswordInput {
    pub email: String,
    pub otp: String,
    pub new_password: String,
}

pub struct ResetPasswordInputView {
    pub email: Seq<char>,
    pub otp: Seq<char>,
    pub new_password: Seq<char>,
}

impl View for ResetPasswordInput {
    type V = ResetPasswordInputView;

    open spec fn view(&self) -> ResetPasswordInputView {
        ResetPasswordInputView {
            email: self.email@,
            otp: self.otp@,
            new_password: self.new_password@,
        }
    }
}

#[derive(Debug)]
pub enum ResetPasswordResult {
    PasswordReset,
    BadRequest(String),
}

/// The complaint about a status that blames the server: it quotes the status
/// as far as it can be shown.
pub open spec fn server_error_message(status: u16) -> Seq<char> {
    "Unexpected server error '"@ + (match status_display(status) {
        Some(shown) => shown,
        None => Seq::empty(),
    }) + "'"@
}

/// What the reply means. The body of a success is not looked at.
pub fn map_result(reply: Reply<()>) -> (r: Result<ResetPasswordResult, String>)
    ensures
        match reply {
            Reply::Success(_) => r == Ok::<ResetPasswordResult, String>(
                ResetPasswordResult::PasswordReset,
            ),
            Reply::NoAnswer(e) => r == Err::<ResetPasswordResult, String>(e),
            Reply::Failure { status, error } => if is_client_error(status) {
                r matches Ok(ResetPasswordResult::BadRequest(e)) && e@ == error_message(
                    status,
                    opt_text(error),
                )
            } else {
                is_error(r, server_error_message(status))
            },
        },
{
    match reply {
        Reply::Success(_) => Ok(ResetPasswordResult::PasswordReset),
        Reply::NoAnswer(e) => Err(e),
        Reply::Failure { status, error } => {
            if status_is_client_error(status) {
                Ok(ResetPasswordResult::BadRequest(decode_error_response(status, error)))
            } else {
                let shown = match status_to_string(status) {
                    Some(text) => text,
                    None => String::new(),
                };
                Err("Unexpected server error '".to_owned().concat(shown.as_str()).concat("'"))
            }
        },
    }
}

/// Asks to set the new password.
pub fn reset_password(input: ResetPasswordInput) -> (r: Call<
    ResetPasswordInput,
    ResetPasswordResult,
>)
    ensures
        sends(r, Method::Post, RESET_PASSWORD_PATH@, None, Seq::empty(), Some(input)),
{
    let mut request = bare_request(Method::Post, RESET_PASSWORD_PATH, None);
    request.body = Some(input);
    Call::Send(request)
}

} // verus!
