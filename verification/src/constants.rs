//! Fixed values: where the server is, and the limits of the forms.

use vstd::prelude::*;

verus! {

/// Every how many seconds the token is refreshed.
pub const REFRESH_TOKEN_PERIOD: u64 = 5 * 60;

pub const MAX_PASSWORD_LENGTH: usize = 24;

pub const MAX_EMAIL_LENGTH: usize = 40;

pub const BASE_URL: &'static str = "http://localhost:8080/";

pub const LOGIN_PATH: &'static str = "auth/login";

pub const ADD_ROOM_PATH: &'static str = "room";

pub const ADD_GUEST_PATH: &'static str = "guest";

pub const REFRESH_TOKEN_PATH: &'static str = "auth/refresh";

pub const LOGOUT_PATH: &'static str = "auth/logout";

pub const REGISTER_PATH: &'static str = "auth/register";

pub const SEND_OTP_PATH: &'static str = "auth/send-otp";

pub const RESET_PASSWORD_PATH: &'static str = "auth/reset-password";

pub const FIND_UNOCCUPIED_ROOMS_PATH: &'static str = "booking/unoccupied";

pub const GET_ROOM_PATH: &'static str = "room/";

pub const GET_GUEST_PATH: &'static str = "guest/";

pub const FIND_GUEST_PATH: &'static str = "guest";

} // verus!
