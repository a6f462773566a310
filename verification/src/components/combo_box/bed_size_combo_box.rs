//! The choice of a bed's size.

use vstd::prelude::*;
use crate::model::bed::BedSize;

verus! {

pub struct BedSizeComboBox {
    selected: BedSize,
    options: [BedSize; 4],
}

impl BedSizeComboBox {
    /// The size that is chosen.
    pub closed spec fn selected(&self) -> BedSize {
        self.selected
    }

    /// The sizes on offer, in the order shown.
    pub closed spec fn offered(&self) -> Seq<BedSize> {
        self.options@
    }

    /// A box that offers every size and starts on the single bed.
    pub fn new() -> (r: Self)
        ensures
            r.selected() == BedSize::Single,
            r.offered() == seq![
                BedSize::Single,
                BedSize::SmallDouble,
                BedSize::Double,
                BedSize::KingSize,
            ],
    {
        let options = [BedSize::Single, BedSize::SmallDouble, BedSize::Double, BedSize::KingSize];
        Self { selected: BedSize::Single, options }
    }

    pub fn update(&mut self, bed_size: BedSize)
        ensures
            final(self).selected() == bed_size,
            final(self).offered() == old(self).offered(),
    {
        self.selected = bed_size;
    }

    pub fn get_selected(&self) -> (r: BedSize)
        ensures
            r == self.selected(),
    {
        self.selected
    }

    pub fn options(&self) -> (r: &[BedSize; 4])
        ensures
            r@ == self.offered(),
    {
        &self.options
    }
}

} // verus!
