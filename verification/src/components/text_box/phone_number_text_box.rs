//! The field for a phone number in international form.

use vstd::prelude::*;
use crate::components::text_box::regex_text_box::{RegexTextBox, RegexTextBoxView};
use crate::components::text_box::text_box::TextElement;

verus! {

/// The expression that the field's text has to match.
pub const PHONE_NUMBER_PATTERN: &'static str = "^(\\+[0-9]{0,15})?$";

/// The most bytes that the field holds.
pub const PHONE_NUMBER_MAX_LENGTH: usize = 15;

pub struct PhoneNumberTextBox {
    text_box: RegexTextBox,
}

impl View for PhoneNumberTextBox {
    type V = RegexTextBoxView;

    closed spec fn view(&self) -> RegexTextBoxView {
        self.text_box@
    }
}

impl PhoneNumberTextBox {
    pub fn new(initial_text: &str) -> (r: Self)
        ensures
            r@ == (RegexTextBoxView {
                text: initial_text@,
                max_length: PHONE_NUMBER_MAX_LENGTH as nat,
                pattern: PHONE_NUMBER_PATTERN@,
            }),
    {
        Self { text_box: RegexTextBox::new(initial_text, PHONE_NUMBER_MAX_LENGTH, PHONE_NUMBER_PATTERN) }
    }

    /// Empties the field.
    pub fn clear(&mut self)
        ensures
            final(self)@ == old(self)@.clear(),
    {
        self.text_box.clear();
    }
}

impl TextElement for PhoneNumberTextBox {
    open spec fn text(&self) -> Seq<char> {
        self@.text
    }

    open spec fn text_after(&self, new_text: Seq<char>) -> Seq<char> {
        self@.update(new_text).text
    }

    fn get_text(&self) -> (r: &str)
        ensures
            r@ == self@.text,
    {
        self.text_box.get_text()
    }

    fn update(&mut self, new_text: String)
        ensures
            final(self)@ == old(self)@.update(new_text@),
    {
        self.text_box.update(new_text);
    }
}

} // verus!
