//! Adding a guest.

use vstd::prelude::*;
use crate::constants::ADD_GUEST_PATH;
use crate::date::Date;
use crate::model::id_card::{
    clone_opt_card,
    opt_card,
    opt_card_dto,
    IdCard,
    IdCardDto,
    IdCardDtoView,
    IdCardView,
};
use crate::services::{
    bare_request,
    decode_error_response,
    error_message,
    is_error,
    is_forbidden,
    sends,
    status_is_forbidden,
    Call,
    Method,
    Reply,
};
use crate::text::opt_text;

verus! {

/// What is sent to add a guest. The dates and the card are held twice: as
/// the form has them, and as the text that travels.
#[derive(Debug)]
pub struct AddGuestInput {
    pub first_name: String,
    pub last_name: String,
    pub date_of_birth_model: Date,
    pub date_of_birth: String,
    pub phone_number: Option<String>,
    pub id_card_model: Option<IdCard>,
    pub id_card: Option<IdCardDto>,
}

pub struct AddGuestInputView {
    pub first_name: Seq<char>,
    pub last_name: Seq<char>,
    pub date_of_birth_model: Date,
    pub date_of_birth: Seq<char>,
    pub phone_number: Option<Seq<char>>,
    pub id_card_model: Option<IdCardView>,
    pub id_card: Option<IdCardDtoView>,
}

impl View for AddGuestInput {
    type V = AddGuestInputView;

    open spec fn view(&self) -> AddGuestInputView {
        AddGuestInputView {
            first_name: self.first_name@,
            last_name: self.last_name@,
            date_of_birth_model: self.date_of_birth_model,
            date_of_birth: self.date_of_birth@,
            phone_number: opt_text(self.phone_number),
            id_card_model: opt_card(self.id_card_model),
            id_card: opt_card_dto(self.id_card),
        }
    }
}

impl AddGuestInputView {
    /// The input for a guest with these particulars.
    pub open spec fn of(
        first_name: Seq<char>,
        last_name: Seq<char>,
        date_of_birth: Date,
        phone_number: Option<Seq<char>>,
        id_card: Option<IdCardView>,
    ) -> AddGuestInputView {
        AddGuestInputView {
            first_name,
            last_name,
            date_of_birth_model: date_of_birth,
            date_of_birth: date_of_birth.text(),
            phone_number,
            id_card_model: id_card,
            id_card: match id_card {
                Some(card) => Some(card.to_dto()),
                None => None,
            },
        }
    }
}

impl AddGuestInput {
    pub fn new(
        first_name: String,
        last_name: String,
        date_of_birth: Date,
        phone_number: Option<String>,
        id_card: Option<IdCard>,
    ) -> (r: Self)
        ensures
            r@ == AddGuestInputView::of(
                first_name@,
                last_name@,
                date_of_birth,
                opt_text(phone_number),
                opt_card(id_card),
            ),
    {
        Self {
            id_card_model: clone_opt_card(&id_card),
            id_card: match id_card {
                Some(card) => Some(card.into()),
                None => None,
            },
            first_name,
            last_name,
            date_of_birth: date_of_birth.to_text(),
            date_of_birth_model: date_of_birth,
            phone_number,
        }
    }
}

#[derive(Debug)]
pub struct AddGuestOutput {
    pub guest_id: u128,
}

#[derive(Debug)]
pub enum AddGuestResult {
    GuestAdded(u128),
    Forbidden,
    BadRequest(String),
}

/// The request that adds the guest; without a token the answer is
/// `Forbidden` and nothing is sent.
pub fn add_guest_request(input: AddGuestInput, token: Option<String>) -> (r: Call<
    AddGuestInput,
    AddGuestResult,
>)
    ensures
        match token {
            Some(t) => sends(r, Method::Post, ADD_GUEST_PATH@, Some(t@), Seq::empty(), Some(input)),
            None => r == Call::<AddGuestInput, AddGuestResult>::Answer(
                Ok(AddGuestResult::Forbidden),
            ),
        },
{
    match token {
        Some(t) => {
            let mut request = bare_request(Method::Post, ADD_GUEST_PATH, Some(t));
            request.body = Some(input);
            Call::Send(request)
        },
        None => Call::Answer(Ok(AddGuestResult::Forbidden)),
    }
}

/// Asks to send the guest with the session's token.
pub fn add_guest(token: Option<String>, add_guest_input: AddGuestInput) -> (r: Call<
    AddGuestInput,
    AddGuestResult,
>)
    ensures
        match token {
            Some(t) => sends(
                r,
                Method::Post,
                ADD_GUEST_PATH@,
                Some(t@),
                Seq::empty(),
                Some(add_guest_input),
            ),
            None => r == Call::<AddGuestInput, AddGuestResult>::Answer(
                Ok(AddGuestResult::Forbidden),
            ),
        },
{
    add_guest_request(add_guest_input, token)
}

/// What the reply means.
pub fn add_guest_response(reply: Reply<AddGuestOutput>) -> (r: Result<AddGuestResult, String>)
    ensures
        match reply {
            Reply::Success(Ok(output)) => r == Ok::<AddGuestResult, String>(
                AddGuestResult::GuestAdded(output.guest_id),
            ),
            Reply::Failure { status, error } => if is_forbidden(status) {
                r == Ok::<AddGuestResult, String>(AddGuestResult::Forbidden)
            } else {
                r matches Ok(AddGuestResult::BadRequest(e)) && e@ == error_message(
                    status,
                    opt_text(error),
                )
            },
            _ => is_error(r, "Unexpected error"@),
        },
{
    match reply {
        Reply::Success(Ok(output)) => Ok(AddGuestResult::GuestAdded(output.guest_id)),
        Reply::Failure { status, error } => {
            if status_is_forbidden(status) {
                Ok(AddGuestResult::Forbidden)
            } else {
                Ok(AddGuestResult::BadRequest(decode_error_response(status, error)))
            }
        },
        _ => Err("Unexpected error".to_owned()),
    }
}

} // verus!
