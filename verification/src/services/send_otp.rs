//! Asking for a one-time code by e-mail.

use vstd::prelude::*;
use crate::constants::SEND_OTP_PATH;
use crate::services::{
    bare_request,
    decode_error_response,
    error_message,
    is_client_error,
    is_error,
    sends,
    status_is_client_error,
    Call,
    Method,
    Reply,
};
use crate::text::opt_text;

verus! {

#[derive(Debug)]
pub struct SendOtpInput {
    pub email: String,
}

#[derive(Debug, Clone)]
pub enum SendOtpResult {
    Success,
    BadRequest(String),
}

/// What the reply means. The body of a success is not looked at.
pub fn map_result(reply: Reply<()>) -> (r: Result<SendOtpResult, String>)
    ensures
        match reply {
            Reply::Success(_) => r == Ok::<SendOtpResult, String>(SendOtpResult::Success),
            Reply::NoAnswer(e) => r == Err::<SendOtpResult, String>(e),
            Reply::Failure { status, error } => if is_client_error(status) {
                r matches Ok(SendOtpResult::BadRequest(e)) && e@ == error_message(
                    status,
                    opt_text(error),
                )
            } else {
                is_error(r, error_message(status, opt_text(error)))
            },
        },
{
    match reply {
        Reply::Success(_) => Ok(SendOtpResult::Success),
        Reply::NoAnswer(e) => Err(e),
        Reply::Failure { status, error } => {
            if status_is_client_error(status) {
                Ok(SendOtpResult::BadRequest(decode_error_response(status, error)))
            } else {
                Err(decode_error_response(status, error))
            }
        },
    }
}

/// Asks to send a code to `email`.
pub fn send_otp(email: String) -> (r: Call<SendOtpInput, SendOtpResult>)
    ensures
        r matches Call::Send(request) && request.body matches Some(input) && input.email == email,
        sends(r, Method::Post, SEND_OTP_PATH@, None, Seq::empty(), r->Send_0.body),
{
    let mut request = bare_request(Method::Post, SEND_OTP_PATH, None);
    request.body = Some(SendOtpInput { email });
    Call::Send(request)
}

} // verus!
