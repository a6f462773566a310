//! A room as the server describes it.

use vstd::prelude::*;
use crate::model::bathroom_type::BathroomType;
use crate::model::bed::Bed;

verus! {

/// A room. The price is in the currency's minor unit.
#[derive(Debug)]
pub struct Room {
    pub id: u128,
    pub price: i64,
    pub floor: i16,
    pub room_number: String,
    pub bathroom_type: BathroomType,
    pub beds: Vec<Bed>,
}

pub struct RoomView {
    pub id: u128,
    pub price: i64,
    pub floor: i16,
    pub room_number: Seq<char>,
    pub bathroom_type: BathroomType,
    pub beds: Seq<Bed>,
}

impl View for Room {
    type V = RoomView;

    open spec fn view(&self) -> RoomView {
        RoomView {
            id: self.id,
            price: self.price,
            floor: self.floor,
            room_number: self.room_number@,
            bathroom_type: self.bathroom_type,
            beds: self.beds@,
        }
    }
}

impl Clone for Room {
    fn clone(&self) -> (r: Room)
        ensures
            r@ == self@,
    {
        let mut beds: Vec<Bed> = Vec::new();
        let mut i: usize = 0;
        while i < self.beds.len()
            invariant
                i <= self.beds.len(),
                beds@ == self.beds@.take(i as int),
            decreases self.beds.len() - i,
        {
            beds.push(self.beds[i]);
            i = i + 1;
        }
        assert(self.beds@.take(i as int) =~= self.beds@);
        Room {
            id: self.id,
            price: self.price,
            floor: self.floor,
            room_number: self.room_number.clone(),
            bathroom_type: self.bathroom_type,
            beds,
        }
    }
}

} // verus!
