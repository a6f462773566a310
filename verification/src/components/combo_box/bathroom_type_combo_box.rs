//! The choice of a room's kind of bathroom.

use vstd::prelude::*;
use crate::model::bathroom_type::BathroomType;

verus! {

pub struct BathroomTypeComboBox {
    selected: BathroomType,
    options: [BathroomType; 2],
}

impl BathroomTypeComboBox {
    /// The kind that is chosen.
    pub closed spec fn selected(&self) -> BathroomType {
        self.selected
    }

    /// The kinds on offer, in the order shown.
    pub closed spec fn offered(&self) -> Seq<BathroomType> {
        self.options@
    }

    /// A box that offers both kinds and starts on the private one.
    pub fn new() -> (r: Self)
        ensures
            r.selected() == BathroomType::Private,
            r.offered() == seq![BathroomType::Private, BathroomType::Shared],
    {
        let options = [BathroomType::Private, BathroomType::Shared];
        Self { selected: BathroomType::Private, options }
    }

    pub fn update(&mut self, bathroom_type: BathroomType)
        ensures
            final(self).selected() == bathroom_type,
            final(self).offered() == old(self).offered(),
    {
        self.selected = bathroom_type;
    }

    pub fn get_selected(&self) -> (r: BathroomType)
        ensures
            r == self.selected(),
    {
        self.selected
    }

    pub fn options(&self) -> (r: &[BathroomType; 2])
        ensures
            r@ == self.offered(),
    {
        &self.options
    }
}

} // verus!
