//! Identity cards, as the forms hold them and as they travel.

use vstd::prelude::*;
use crate::date::{string_to_date, Date};

verus! {

/// An identity card with its dates as dates.
#[derive(Debug)]
pub struct IdCard {
    pub ucn: String,
    pub id_card_number: String,
    pub issue_authority: String,
    pub issue_date: Date,
    pub validity_date: Date,
}

pub struct IdCardView {
    pub ucn: Seq<char>,
    pub id_card_number: Seq<char>,
    pub issue_authority: Seq<char>,
    pub issue_date: Date,
    pub validity_date: Date,
}

impl View for IdCard {
    type V = IdCardView;

    open spec fn view(&self) -> IdCardView {
        IdCardView {
            ucn: self.ucn@,
            id_card_number: self.id_card_number@,
            issue_authority: self.issue_authority@,
            issue_date: self.issue_date,
            validity_date: self.validity_date,
        }
    }
}

impl Clone for IdCard {
    fn clone(&self) -> (r: IdCard)
        ensures
            r@ == self@,
    {
        IdCard {
            ucn: self.ucn.clone(),
            id_card_number: self.id_card_number.clone(),
            issue_authority: self.issue_authority.clone(),
            issue_date: self.issue_date,
            validity_date: self.validity_date,
        }
    }
}

/// An identity card with its dates as text, the form in which it travels.
#[derive(Debug)]
pub struct IdCardDto {
    pub ucn: String,
    pub id_card_number: String,
    pub issue_authority: String,
    pub issue_date: String,
    pub validity: String,
}

pub struct IdCardDtoView {
    pub ucn: Seq<char>,
    pub id_card_number: Seq<char>,
    pub issue_authority: Seq<char>,
    pub issue_date: Seq<char>,
    pub validity: Seq<char>,
}

impl View for IdCardDto {
    type V = IdCardDtoView;

    open spec fn view(&self) -> IdCardDtoView {
        IdCardDtoView {
            ucn: self.ucn@,
            id_card_number: self.id_card_number@,
            issue_authority: self.issue_authority@,
            issue_date: self.issue_date@,
            validity: self.validity@,
        }
    }
}

impl Clone for IdCardDto {
    fn clone(&self) -> (r: IdCardDto)
        ensures
            r@ == self@,
    {
        IdCardDto {
            ucn: self.ucn.clone(),
            id_card_number: self.id_card_number.clone(),
            issue_authority: self.issue_authority.clone(),
            issue_date: self.issue_date.clone(),
            validity: self.validity.clone(),
        }
    }
}

impl IdCardView {
    /// The travelling form of a card: the same texts, the dates written out.
    pub open spec fn to_dto(self) -> IdCardDtoView {
        IdCardDtoView {
            ucn: self.ucn,
            id_card_number: self.id_card_number,
            issue_authority: self.issue_authority,
            issue_date: self.issue_date.text(),
            validity: self.validity_date.text(),
        }
    }
}

impl IdCardDtoView {
    /// The card that a travelling form stands for.
    pub open spec fn to_card(self) -> IdCardView {
        IdCardView {
            ucn: self.ucn,
            id_card_number: self.id_card_number,
            issue_authority: self.issue_authority,
            issue_date: Date::of_text(self.issue_date),
            validity_date: Date::of_text(self.validity),
        }
    }
}

impl IdCard {
    /// Writes the dates out as text.
    pub fn into(self) -> (r: IdCardDto)
        ensures
            r@ == self@.to_dto(),
    {
        IdCardDto {
            issue_date: self.issue_date.to_text(),
            validity: self.validity_date.to_text(),
            ucn: self.ucn,
            id_card_number: self.id_card_number,
            issue_authority: self.issue_authority,
        }
    }
}

impl IdCardDto {
    /// Reads the dates back from their text.
    pub fn into(self) -> (r: IdCard)
        ensures
            r@ == self@.to_card(),
    {
        IdCard {
            issue_date: string_to_date(self.issue_date.as_str()),
            validity_date: string_to_date(self.validity.as_str()),
            ucn: self.ucn,
            id_card_number: self.id_card_number,
            issue_authority: self.issue_authority,
        }
    }
}

/// The view of an optional card.
pub open spec fn opt_card(card: Option<IdCard>) -> Option<IdCardView> {
    match card {
        Some(c) => Some(c@),
        None => None,
    }
}

/// The view of an optional travelling card.
pub open spec fn opt_card_dto(card: Option<IdCardDto>) -> Option<IdCardDtoView> {
    match card {
        Some(c) => Some(c@),
        None => None,
    }
}

/// A copy of an optional card.
pub fn clone_opt_card(card: &Option<IdCard>) -> (r: Option<IdCard>)
    ensures
        opt_card(r) == opt_card(*card),
{
    match card {
        Some(c) => Some(c.clone()),
        None => None,
    }
}

} // verus!
