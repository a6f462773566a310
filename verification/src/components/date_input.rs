//! A date field with its pop-up picker.

use vstd::prelude::*;
use vstd::string::StringExecFns;
use crate::date::Date;

verus! {

/// A date, the caption it is shown under, and whether the picker is open.
pub struct DateInput {
    date: Date,
    show_picker: bool,
    text: String,
}

pub struct DateInputView {
    pub date: Date,
    pub show_picker: bool,
    pub text: Seq<char>,
}

impl DateInputView {
    /// What the field shows: the caption, a colon, and the date.
    pub open spec fn display_text(self) -> Seq<char> {
        self.text + ":"@ + self.date.text()
    }

    pub open spec fn update_date(self, new_date: Date) -> DateInputView {
        DateInputView { date: new_date, ..self }
    }

    pub open spec fn toggle_show(self) -> DateInputView {
        DateInputView { show_picker: !self.show_picker, ..self }
    }
}

impl View for DateInput {
    type V = DateInputView;

    closed spec fn view(&self) -> DateInputView {
        DateInputView { date: self.date, show_picker: self.show_picker, text: self.text@ }
    }
}

impl DateInput {
    /// A closed field with the given caption and date.
    pub fn new(text: &str, date: Date) -> (r: Self)
        ensures
            r@ == (DateInputView { date, show_picker: false, text: text@ }),
    {
        Self { date, show_picker: false, text: text.to_owned() }
    }

    fn create_display_text(text: &str, date: &Date) -> (r: String)
        ensures
            r@ == text@ + ":"@ + date.text(),
    {
        let date_text = date.to_text();
        text.to_owned().concat(":").concat(date_text.as_str())
    }

    pub fn update_date(&mut self, new_date: Date)
        ensures
            final(self)@ == old(self)@.update_date(new_date),
    {
        self.date = new_date;
    }

    pub fn toggle_show(&mut self)
        ensures
            final(self)@ == old(self)@.toggle_show(),
    {
        self.show_picker = !self.show_picker;
    }

    pub fn get_date(&self) -> (r: Date)
        ensures
            r == self@.date,
    {
        self.date
    }

    /// Whether the picker is open.
    pub fn is_shown(&self) -> (r: bool)
        ensures
            r == self@.show_picker,
    {
        self.show_picker
    }

    /// What the field shows.
    pub fn display_text(&self) -> (r: String)
        ensures
            r@ == self@.display_text(),
    {
        Self::create_display_text(self.text.as_str(), &self.date)
    }

    /// The caption of the field.
    pub fn caption(&self) -> (r: &str)
        ensures
            r@ == self@.text,
    {
        self.text.as_str()
    }
}

} // verus!
