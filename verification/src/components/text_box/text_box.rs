//! The plain text field and what all text fields share.

use vstd::prelude::*;
use crate::text::{byte_len, byte_length};

verus! {

/// A field that holds text and takes new text on its own terms.
pub trait TextElement {
    /// The text held.
    spec fn text(&self) -> Seq<char>;

    /// The text held once `new_text` has been offered.
    spec fn text_after(&self, new_text: Seq<char>) -> Seq<char>;

    fn get_text(&self) -> (r: &str)
        ensures
            r@ == self.text(),
    ;

    /// Offers `new_text` to the field, which keeps its old text where it
    /// refuses the new one.
    fn update(&mut self, new_text: String)
        ensures
            final(self).text() == old(self).text_after(new_text@),
    ;
}

/// A text field with a limit on its length in bytes.
pub struct TextBox {
    text: String,
    max_length: usize,
}

pub struct TextBoxView {
    pub text: Seq<char>,
    pub max_length: nat,
}

impl TextBoxView {
    /// The field with no text in it.
    pub open spec fn clear(self) -> TextBoxView {
        TextBoxView { text: Seq::empty(), ..self }
    }

    /// The field after `new_text` has been offered: unchanged where the text
    /// is longer than the limit, holding the text otherwise.
    pub open spec fn update(self, new_text: Seq<char>) -> TextBoxView {
        if byte_len(new_text) > self.max_length {
            self
        } else {
            TextBoxView { text: new_text, ..self }
        }
    }
}

impl View for TextBox {
    type V = TextBoxView;

    closed spec fn view(&self) -> TextBoxView {
        TextBoxView { text: self.text@, max_length: self.max_length as nat }
    }
}

impl TextBox {
    /// A field that starts with `initial_text`, whatever its length.
    pub fn new(initial_text: &str, max_length: usize) -> (r: Self)
        ensures
            r@ == (TextBoxView { text: initial_text@, max_length: max_length as nat }),
    {
        Self { text: initial_text.to_owned(), max_length }
    }

    /// Empties the field.
    pub fn clear(&mut self)
        ensures
            final(self)@ == old(self)@.clear(),
    {
        self.text = String::new();
    }
}

impl TextElement for TextBox {
    open spec fn text(&self) -> Seq<char> {
        self@.text
    }

    open spec fn text_after(&self, new_text: Seq<char>) -> Seq<char> {
        self@.update(new_text).text
    }

    fn get_text(&self) -> (r: &str)
        ensures
            r@ == self@.text,
    {
        self.text.as_str()
    }

    fn update(&mut self, new_text: String)
        ensures
            final(self)@ == old(self)@.update(new_text@),
    {
        if byte_length(new_text.as_str()) > self.max_length {
            return ;
        }
        self.text = new_text;
    }
}

} // verus!
