//! Pick-one-of-a-few fields.

pub mod bathroom_type_combo_box;
pub mod bed_size_combo_box;
