//! The hotel's records: rooms, beds, guests and identity cards.

pub mod bathroom_type;
pub mod bed;
pub mod guest;
pub mod id_card;
pub mod room;
