//! Whether a room has a bathroom of its own.

use vstd::prelude::*;

verus! {

#[derive(Debug, Clone, Copy, PartialEq, Eq, Structural)]
pub enum BathroomType {
    Private,
    Shared,
}

impl BathroomType {
    /// The name shown for this kind of bathroom.
    pub open spec fn label(self) -> Seq<char> {
        match self {
            BathroomType::Private => "Private"@,
            BathroomType::Shared => "Shared"@,
        }
    }

    pub fn to_string(&self) -> (r: String)
        ensures
            r@ == self.label(),
    {
        match self {
            BathroomType::Private => "Private",
            BathroomType::Shared => "Shared",
        }.to_owned()
    }
}

} // verus!
