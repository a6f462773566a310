//! A text field that only takes text matching a regular expression.

use vstd::prelude::*;
use crate::components::text_box::text_box::TextElement;
use crate::pattern::{is_match, matches_pattern};
use crate::text::{byte_len, byte_length, to_uppercase, uppercase};

verus! {

/// A text field with a limit on its length in bytes and a regular expression
/// that its text has to match.
pub struct RegexTextBox {
    text: String,
    max_length: usize,
    pattern: String,
}

pub struct RegexTextBoxView {
    pub text: Seq<char>,
    pub max_length: nat,
    pub pattern: Seq<char>,
}

impl RegexTextBoxView {
    /// The field with no text in it.
    pub open spec fn clear(self) -> RegexTextBoxView {
        RegexTextBoxView { text: Seq::empty(), ..self }
    }

    /// Whether the field takes `new_text`: it is no longer than the limit and
    /// the expression matches it.
    pub open spec fn accepts(self, new_text: Seq<char>) -> bool {
        byte_len(new_text) <= self.max_length && matches_pattern(self.pattern, new_text)
    }

    /// The field after `new_text` has been offered.
    pub open spec fn update(self, new_text: Seq<char>) -> RegexTextBoxView {
        if self.accepts(new_text) {
            RegexTextBoxView { text: new_text, ..self }
        } else {
            self
        }
    }

    /// The field after the upper-case form of `new_text` has been offered.
    pub open spec fn update_uppercased(self, new_text: Seq<char>) -> RegexTextBoxView {
        self.update(uppercase(new_text))
    }
}

/// Offering a text leaves the field as it was whenever the text is longer
/// than the limit or fails the expression; otherwise the field holds exactly
/// that text.
pub proof fn lemma_update_keeps_or_replaces(field: RegexTextBoxView, new_text: Seq<char>)
    ensures
        byte_len(new_text) > field.max_length || !matches_pattern(field.pattern, new_text)
            ==> field.update(new_text) == field,
        !(byte_len(new_text) > field.max_length || !matches_pattern(field.pattern, new_text))
            ==> field.update(new_text).text == new_text,
        field.update(new_text).max_length == field.max_length,
        field.update(new_text).pattern == field.pattern,
{
}

/// In a field that upper-cases what it is offered, a text that is its own
/// upper-case form is kept or refused like in any other field.
pub proof fn lemma_update_uppercased_keeps_or_replaces(field: RegexTextBoxView, new_text: Seq<char>)
    requires
        uppercase(new_text) == new_text,
    ensures
        byte_len(new_text) > field.max_length || !matches_pattern(field.pattern, new_text)
            ==> field.update_uppercased(new_text) == field,
        !(byte_len(new_text) > field.max_length || !matches_pattern(field.pattern, new_text))
            ==> field.update_uppercased(new_text).text == new_text,
{
}

impl View for RegexTextBox {
    type V = RegexTextBoxView;

    closed spec fn view(&self) -> RegexTextBoxView {
        RegexTextBoxView {
            text: self.text@,
            max_length: self.max_length as nat,
            pattern: self.pattern@,
        }
    }
}

impl RegexTextBox {
    /// A field that starts with `initial_text`, which is not held to the
    /// field's rules, and from then on takes only what `pattern` matches.
    pub fn new(initial_text: &str, max_length: usize, pattern: &str) -> (r: Self)
        ensures
            r@ == (RegexTextBoxView {
                text: initial_text@,
                max_length: max_length as nat,
                pattern: pattern@,
            }),
    {
        Self { text: initial_text.to_owned(), max_length, pattern: pattern.to_owned() }
    }

    /// Empties the field, whatever its expression says of the empty text.
    pub fn clear(&mut self)
        ensures
            final(self)@ == old(self)@.clear(),
    {
        self.text = String::new();
    }

    /// Offers the upper-case form of `new_text`.
    pub fn update_uppercased(&mut self, new_text: String)
        ensures
            final(self)@ == old(self)@.update_uppercased(new_text@),
    {
        self.update(to_uppercase(new_text.as_str()));
    }
}

impl TextElement for RegexTextBox {
    open spec fn text(&self) -> Seq<char> {
        self@.text
    }

    open spec fn text_after(&self, new_text: Seq<char>) -> Seq<char> {
        self@.update(new_text).text
    }

    fn get_text(&self) -> (r: &str)
        ensures
            r@ == self@.text,
    {
        self.text.as_str()
    }

    fn update(&mut self, new_text: String)
        ensures
            final(self)@ == old(self)@.update(new_text@),
    {
        if byte_length(new_text.as_str()) > self.max_length {
            return ;
        }
        if is_match(self.pattern.as_str(), new_text.as_str()) {
            self.text = new_text;
        }
    }
}

} // verus!
