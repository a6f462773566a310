//! Fields for numbers: whole ones and prices.

use vstd::prelude::*;
use crate::components::text_box::regex_text_box::{RegexTextBox, RegexTextBoxView};
use crate::components::text_box::text_box::TextElement;

verus! {

/// What kind of number a field takes.
#[derive(Debug, Clone, Copy, PartialEq, Eq, Structural)]
pub enum NumberType {
    PositiveInteger,
    Price,
}

/// The expression for a whole number without a sign.
pub const POSITIVE_INTEGER_PATTERN: &'static str = "^\\d*$";

/// The expression for a price: digits, and at most two more after a point.
pub const PRICE_PATTERN: &'static str = "^\\d*(\\.\\d{0,2})?$";

impl NumberType {
    /// The expression that numbers of this kind match.
    pub open spec fn pattern(self) -> Seq<char> {
        match self {
            NumberType::PositiveInteger => POSITIVE_INTEGER_PATTERN@,
            NumberType::Price => PRICE_PATTERN@,
        }
    }
}

pub struct NumberTextBox {
    text_box: RegexTextBox,
}

impl View for NumberTextBox {
    type V = RegexTextBoxView;

    closed spec fn view(&self) -> RegexTextBoxView {
        self.text_box@
    }
}

impl NumberTextBox {
    pub fn new(initial_text: &str, max_length: usize, number_type: NumberType) -> (r: Self)
        ensures
            r@ == (RegexTextBoxView {
                text: initial_text@,
                max_length: max_length as nat,
                pattern: number_type.pattern(),
            }),
    {
        let pattern = match number_type {
            NumberType::PositiveInteger => POSITIVE_INTEGER_PATTERN,
            NumberType::Price => PRICE_PATTERN,
        };
        Self { text_box: RegexTextBox::new(initial_text, max_length, pattern) }
    }

    /// Empties the field.
    pub fn clear(&mut self)
        ensures
            final(self)@ == old(self)@.clear(),
    {
        self.text_box.clear();
    }
}

impl TextElement for NumberTextBox {
    open spec fn text(&self) -> Seq<char> {
        self@.text
    }

    open spec fn text_after(&self, new_text: Seq<char>) -> Seq<char> {
        self@.update(new_text).text
    }

    fn get_text(&self) -> (r: &str)
        ensures
            r@ == self@.text,
    {
        self.text_box.get_text()
    }

    fn update(&mut self, new_text: String)
        ensures
            final(self)@ == old(self)@.update(new_text@),
    {
        self.text_box.update(new_text);
    }
}

} // verus!
