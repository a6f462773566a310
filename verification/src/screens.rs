//! The screens of the application, each a state machine of its own.

pub mod add_guest;
pub mod add_room;
pub mod book_room;
pub mod home;
pub mod login;
pub mod register;
pub mod reset_password;
