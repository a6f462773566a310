//! Guests, as the forms hold them and as they travel.

use vstd::prelude::*;
use crate::date::{string_to_date, Date};
use crate::model::id_card::{
    clone_opt_card,
    opt_card,
    opt_card_dto,
    IdCard,
    IdCardDto,
    IdCardDtoView,
    IdCardView,
};
use crate::text::{clone_opt_text, opt_text};

verus! {

#[derive(Debug)]
pub struct Guest {
    pub id: u128,
    pub first_name: String,
    pub last_name: String,
    pub date_of_birth: Date,
    pub id_card: Option<IdCard>,
    pub phone_number: Option<String>,
}

pub struct GuestView {
    pub id: u128,
    pub first_name: Seq<char>,
    pub last_name: Seq<char>,
    pub date_of_birth: Date,
    pub id_card: Option<IdCardView>,
    pub phone_number: Option<Seq<char>>,
}

impl View for Guest {
    type V = GuestView;

    open spec fn view(&self) -> GuestView {
        GuestView {
            id: self.id,
            first_name: self.first_name@,
            last_name: self.last_name@,
            date_of_birth: self.date_of_birth,
            id_card: opt_card(self.id_card),
            phone_number: opt_text(self.phone_number),
        }
    }
}

impl Clone for Guest {
    fn clone(&self) -> (r: Guest)
        ensures
            r@ == self@,
    {
        Guest {
            id: self.id,
            first_name: self.first_name.clone(),
            last_name: self.last_name.clone(),
            date_of_birth: self.date_of_birth,
            id_card: clone_opt_card(&self.id_card),
            phone_number: clone_opt_text(&self.phone_number),
        }
    }
}

/// A guest in travelling form: no id, the dates as text.
#[derive(Debug)]
pub struct GuestDto {
    pub first_name: String,
    pub last_name: String,
    pub date_of_birth: String,
    pub id_card: Option<IdCardDto>,
    pub phone_number: Option<String>,
}

pub struct GuestDtoView {
    pub first_name: Seq<char>,
    pub last_name: Seq<char>,
    pub date_of_birth: Seq<char>,
    pub id_card: Option<IdCardDtoView>,
    pub phone_number: Option<Seq<char>>,
}

impl View for GuestDto {
    type V = GuestDtoView;

    open spec fn view(&self) -> GuestDtoView {
        GuestDtoView {
            first_name: self.first_name@,
            last_name: self.last_name@,
            date_of_birth: self.date_of_birth@,
            id_card: opt_card_dto(self.id_card),
            phone_number: opt_text(self.phone_number),
        }
    }
}

impl GuestDtoView {
    /// The guest that a travelling form stands for under the given id.
    pub open spec fn with_id(self, id: u128) -> GuestView {
        GuestView {
            id,
            first_name: self.first_name,
            last_name: self.last_name,
            date_of_birth: Date::of_text(self.date_of_birth),
            id_card: match self.id_card {
                Some(card) => Some(card.to_card()),
                None => None,
            },
            phone_number: self.phone_number,
        }
    }
}

impl GuestDto {
    /// The guest with the given id that this travelling form describes.
    pub fn convert_with_id(self, id: u128) -> (r: Guest)
        ensures
            r@ == self@.with_id(id),
    {
        Guest {
            id,
            date_of_birth: string_to_date(self.date_of_birth.as_str()),
            first_name: self.first_name,
            last_name: self.last_name,
            id_card: match self.id_card {
                Some(card) => Some(card.into()),
                None => None,
            },
            phone_number: self.phone_number,
        }
    }
}

} // verus!
