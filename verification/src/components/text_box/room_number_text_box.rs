//! The field for a room number: digits and at most one closing letter, upper-cased.

use vstd::prelude::*;
use crate::components::text_box::regex_text_box::{RegexTextBox, RegexTextBoxView};
use crate::components::text_box::text_box::TextElement;

verus! {

/// The expression that the field's text has to match.
pub const ROOM_NUMBER_PATTERN: &'static str = "^(\\d*[A-Za-z]?)?$";

/// The most bytes that the field holds.
pub const ROOM_NUMBER_MAX_LENGTH: usize = 6;

pub struct RoomNumberTextBox {
    text_box: RegexTextBox,
}

impl View for RoomNumberTextBox {
    type V = RegexTextBoxView;

    closed spec fn view(&self) -> RegexTextBoxView {
        self.text_box@
    }
}

impl RoomNumberTextBox {
    pub fn new(initial_text: &str) -> (r: Self)
        ensures
            r@ == (RegexTextBoxView {
                text: initial_text@,
                max_length: ROOM_NUMBER_MAX_LENGTH as nat,
                pattern: ROOM_NUMBER_PATTERN@,
            }),
    {
        Self { text_box: RegexTextBox::new(initial_text, ROOM_NUMBER_MAX_LENGTH, ROOM_NUMBER_PATTERN) }
    }

    /// Empties the field.
    pub fn clear(&mut self)
        ensures
            final(self)@ == old(self)@.clear(),
    {
        self.text_box.clear();
    }
}

impl TextElement for RoomNumberTextBox {
    open spec fn text(&self) -> Seq<char> {
        self@.text
    }

    open spec fn text_after(&self, new_text: Seq<char>) -> Seq<char> {
        self@.update_uppercased(new_text).text
    }

    fn get_text(&self) -> (r: &str)
        ensures
            r@ == self@.text,
    {
        self.text_box.get_text()
    }

    fn update(&mut self, new_text: String)
        ensures
            final(self)@ == old(self)@.update_uppercased(new_text@),
    {
        self.text_box.update_uppercased(new_text);
    }
}

} // verus!
