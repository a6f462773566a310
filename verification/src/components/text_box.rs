//! Text fields that refuse what does not fit them.

pub mod id_card_number_text_box;
pub mod number_text_box;
pub mod phone_number_text_box;
pub mod regex_text_box;
pub mod room_number_text_box;
pub mod text_box;
pub mod ucn_text_box;
