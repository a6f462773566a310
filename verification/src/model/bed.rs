//! Beds and their sizes.

use vstd::prelude::*;

verus! {

#[derive(Debug, Clone, Copy, PartialEq, Eq, Structural, Hash)]
pub enum BedSize {
    Single,
    SmallDouble,
    Double,
    KingSize,
}

impl BedSize {
    /// The name shown for this size.
    pub open spec fn label(self) -> Seq<char> {
        match self {
            BedSize::Single => "Single"@,
            BedSize::SmallDouble => "Small double"@,
            BedSize::Double => "Double"@,
            BedSize::KingSize => "King size"@,
        }
    }

    pub fn to_string(&self) -> (r: String)
        ensures
            r@ == self.label(),
    {
        match self {
            BedSize::Single => "Single",
            BedSize::SmallDouble => "Small double",
            BedSize::Double => "Double",
            BedSize::KingSize => "King size",
        }.to_owned()
    }
}

/// A number of beds of one size.
#[derive(Debug, Clone, Copy, PartialEq, Eq, Structural)]
pub struct Bed {
    pub bed_size: BedSize,
    pub count: i16,
}

} // verus!
