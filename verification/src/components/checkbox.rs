//! A labelled on/off box.

use vstd::prelude::*;

verus! {

/// A labelled two-state box.
pub struct Checkbox {
    name: String,
    is_checked: bool,
}

pub struct CheckboxView {
    pub name: Seq<char>,
    pub is_checked: bool,
}

impl CheckboxView {
    pub open spec fn update(self, is_checked: bool) -> CheckboxView {
        CheckboxView { is_checked, ..self }
    }
}

impl View for Checkbox {
    type V = CheckboxView;

    closed spec fn view(&self) -> CheckboxView {
        CheckboxView { name: self.name@, is_checked: self.is_checked }
    }
}

impl Checkbox {
    pub fn new(name: &str, is_checked: bool) -> (r: Self)
        ensures
            r@ == (CheckboxView { name: name@, is_checked }),
    {
        Self { name: name.to_owned(), is_checked }
    }

    pub fn update(&mut self, is_checked: bool)
        ensures
            final(self)@ == old(self)@.update(is_checked),
    {
        self.is_checked = is_checked;
    }

    pub fn is_checked(&self) -> (r: bool)
        ensures
            r == self@.is_checked,
    {
        self.is_checked
    }

    /// The label shown beside the box.
    pub fn name(&self) -> (r: &str)
        ensures
            r@ == self@.name,
    {
        self.name.as_str()
    }
}

} // verus!
