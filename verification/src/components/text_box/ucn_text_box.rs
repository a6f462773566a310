//! The field for a citizen's unified civil number: digits only, upper-cased.

use vstd::prelude::*;
use crate::components::text_box::regex_text_box::{RegexTextBox, RegexTextBoxView};
use crate::components::text_box::text_box::TextElement;

verus! {

/// The expression that the field's text has to match.
pub const UCN_PATTERN: &'static str = "^[0-9]*$";

/// The most bytes that the field holds.
pub const UCN_MAX_LENGTH: usize = 10;

pub struct UcnTextBox {
    text_box: RegexTextBox,
}

impl View for UcnTextBox {
    type V = RegexTextBoxView;

    closed spec fn view(&self) -> RegexTextBoxView {
        self.text_box@
    }
}

impl UcnTextBox {
    pub fn new(initial_text: &str) -> (r: Self)
        ensures
            r@ == (RegexTextBoxView {
                text: initial_text@,
                max_length: UCN_MAX_LENGTH as nat,
                pattern: UCN_PATTERN@,
            }),
    {
        Self { text_box: RegexTextBox::new(initial_text, UCN_MAX_LENGTH, UCN_PATTERN) }
    }

    /// Empties the field.
    pub fn clear(&mut self)
        ensures
            final(self)@ == old(self)@.clear(),
    {
        self.text_box.clear();
    }
}

impl TextElement for UcnTextBox {
    open spec fn text(&self) -> Seq<char> {
        self@.text
    }

    open spec fn text_after(&self, new_text: Seq<char>) -> Seq<char> {
        self@.update_uppercased(new_text).text
    }

    fn get_text(&self) -> (r: &str)
        ensures
            r@ == self@.text,
    {
        self.text_box.get_text()
    }

    fn update(&mut self, new_text: String)
        ensures
            final(self)@ == old(self)@.update_uppercased(new_text@),
    {
        self.text_box.update_uppercased(new_text);
    }
}

} // verus!
