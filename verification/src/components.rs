//! Form building blocks shared by the screens.

pub mod checkbox;
pub mod combo_box;
pub mod date_input;
pub mod focus_chain;
pub mod list_input;
pub mod notification;
pub mod room_list_input;
pub mod text_box;
pub mod validator;
