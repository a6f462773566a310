//! The form that adds a guest.

use vstd::prelude::*;
use crate::action::{
    actions_view,
    focus_actions,
    focus_on,
    no_actions,
    nothing,
    one_action,
    Action,
    ActionView,
};
use crate::app::{AppMessage, GlobalState, GlobalStateView};
use crate::components::checkbox::{Checkbox, CheckboxView};
use crate::components::date_input::{DateInput, DateInputView};
use crate::components::focus_chain::{ids_of, pairwise_distinct, FocusChain, FocusChainView};
use crate::components::notification::NotificationType;
use crate::components::text_box::id_card_number_text_box::{
    IdCardNumberTextBox,
    ID_CARD_NUMBER_MAX_LENGTH,
    ID_CARD_NUMBER_PATTERN,
};
use crate::components::text_box::phone_number_text_box::{
    PhoneNumberTextBox,
    PHONE_NUMBER_MAX_LENGTH,
    PHONE_NUMBER_PATTERN,
};
use crate::components::text_box::regex_text_box::RegexTextBoxView;
use crate::components::text_box::text_box::{TextBox, TextBoxView, TextElement};
use crate::components::text_box::ucn_text_box::{UcnTextBox, UCN_MAX_LENGTH, UCN_PATTERN};
use crate::date::Date;
use crate::model::id_card::{IdCard, IdCardView};
use crate::services::add_guest::{AddGuestInput, AddGuestInputView, AddGuestResult};
use crate::text::{byte_len, byte_length, opt_text};

verus! {

#[derive(Debug, Clone)]
pub enum AddGuestMessage {
    ChangeFirstName(String),
    ChangeLastName(String),
    ChangeCheckbox(bool),
    ChangePhoneNumber(String),
    ChangeUcn(String),
    ChangeIdCardNumber(String),
    ChangeIdCardIssueAuthority(String),
    ToggleShowIssueDate,
    ChangeIdCardIssueDate(Date),
    ToggleShowValidityDate,
    ChangeIdCardValidityDate(Date),
    ToggleShowDateOfBirth,
    ChangeDateOfBirth(Date),
    ShowError(String),
    AddGuest,
    GuestAdded(u128),
}

pub const FIRST_NAME_ID: &'static str = "Register First Name";

pub const LAST_NAME_ID: &'static str = "Register Last Name";

pub const PHONE_NUMBER_ID: &'static str = "Register Phone Number";

pub const ID_CARD_UCN_ID: &'static str = "Register ID Card UCN";

pub const ID_CARD_NUMBER_ID: &'static str = "Register ID Card Number";

pub const ID_CARD_ISSUE_AUTHORITY_ID: &'static str = "Register ID Card Issue Authority";

/// The most bytes in a guest's name.
pub const NAME_MAX_LENGTH: usize = 20;

/// The most bytes in the name of the authority that issued a card.
pub const ISSUE_AUTHORITY_MAX_LENGTH: usize = 25;

/// The fewest bytes in a unified civil number.
pub const UCN_MIN_LENGTH: usize = 10;

/// The fewest bytes in the number of a card.
pub const ID_CARD_NUMBER_MIN_LENGTH: usize = 9;

/// The fewest bytes in a phone number that is given at all.
pub const PHONE_NUMBER_MIN_LENGTH: usize = 12;

/// The fields that Tab visits, in order: the guest's own, and after them the
/// card's where the guest has a card.
pub open spec fn focus_ids(with_card: bool) -> Seq<Seq<char>> {
    if with_card {
        seq![
            FIRST_NAME_ID@,
            LAST_NAME_ID@,
            PHONE_NUMBER_ID@,
            ID_CARD_UCN_ID@,
            ID_CARD_NUMBER_ID@,
            ID_CARD_ISSUE_AUTHORITY_ID@,
        ]
    } else {
        seq![FIRST_NAME_ID@, LAST_NAME_ID@, PHONE_NUMBER_ID@]
    }
}

/// The form lists no field twice, with the card's fields or without them.
pub proof fn lemma_focus_ids_distinct(with_card: bool)
    ensures
        pairwise_distinct(focus_ids(with_card)),
{
    reveal_strlit("Register First Name");
    reveal_strlit("Register Last Name");
    reveal_strlit("Register Phone Number");
    reveal_strlit("Register ID Card UCN");
    reveal_strlit("Register ID Card Number");
    reveal_strlit("Register ID Card Issue Authority");
    assert(FIRST_NAME_ID@ != LAST_NAME_ID@) by {
        assert(FIRST_NAME_ID@.len() != LAST_NAME_ID@.len());
    }
    assert(FIRST_NAME_ID@ != PHONE_NUMBER_ID@) by {
        assert(FIRST_NAME_ID@.len() != PHONE_NUMBER_ID@.len());
    }
    assert(FIRST_NAME_ID@ != ID_CARD_UCN_ID@) by {
        assert(FIRST_NAME_ID@.len() != ID_CARD_UCN_ID@.len());
    }
    assert(FIRST_NAME_ID@ != ID_CARD_NUMBER_ID@) by {
        assert(FIRST_NAME_ID@.len() != ID_CARD_NUMBER_ID@.len());
    }
    assert(FIRST_NAME_ID@ != ID_CARD_ISSUE_AUTHORITY_ID@) by {
        assert(FIRST_NAME_ID@.len() != ID_CARD_ISSUE_AUTHORITY_ID@.len());
    }
    assert(LAST_NAME_ID@ != PHONE_NUMBER_ID@) by {
        assert(LAST_NAME_ID@.len() != PHONE_NUMBER_ID@.len());
    }
    assert(LAST_NAME_ID@ != ID_CARD_UCN_ID@) by {
        assert(LAST_NAME_ID@.len() != ID_CARD_UCN_ID@.len());
    }
    assert(LAST_NAME_ID@ != ID_CARD_NUMBER_ID@) by {
        assert(LAST_NAME_ID@.len() != ID_CARD_NUMBER_ID@.len());
    }
    assert(LAST_NAME_ID@ != ID_CARD_ISSUE_AUTHORITY_ID@) by {
        assert(LAST_NAME_ID@.len() != ID_CARD_ISSUE_AUTHORITY_ID@.len());
    }
    assert(PHONE_NUMBER_ID@ != ID_CARD_UCN_ID@) by {
        assert(PHONE_NUMBER_ID@.len() != ID_CARD_UCN_ID@.len());
    }
    assert(PHONE_NUMBER_ID@ != ID_CARD_NUMBER_ID@) by {
        assert(PHONE_NUMBER_ID@.len() != ID_CARD_NUMBER_ID@.len());
    }
    assert(PHONE_NUMBER_ID@ != ID_CARD_ISSUE_AUTHORITY_ID@) by {
        assert(PHONE_NUMBER_ID@.len() != ID_CARD_ISSUE_AUTHORITY_ID@.len());
    }
    assert(ID_CARD_UCN_ID@ != ID_CARD_NUMBER_ID@) by {
        assert(ID_CARD_UCN_ID@.len() != ID_CARD_NUMBER_ID@.len());
    }
    assert(ID_CARD_UCN_ID@ != ID_CARD_ISSUE_AUTHORITY_ID@) by {
        assert(ID_CARD_UCN_ID@.len() != ID_CARD_ISSUE_AUTHORITY_ID@.len());
    }
    assert(ID_CARD_NUMBER_ID@ != ID_CARD_ISSUE_AUTHORITY_ID@) by {
        assert(ID_CARD_NUMBER_ID@.len() != ID_CARD_ISSUE_AUTHORITY_ID@.len());
    }
}

/// The chain over the fields for a guest with or without a card, with no
/// field in focus.
pub fn focus_chain_for(with_card: bool) -> (r: FocusChain)
    ensures
        r@ == (FocusChainView { chain: focus_ids(with_card), selected: None }),
{
    if with_card {
        let fields = vec![
            FIRST_NAME_ID,
            LAST_NAME_ID,
            PHONE_NUMBER_ID,
            ID_CARD_UCN_ID,
            ID_CARD_NUMBER_ID,
            ID_CARD_ISSUE_AUTHORITY_ID,
        ];
        assert(ids_of(fields@) =~= focus_ids(with_card));
        FocusChain::new(fields)
    } else {
        let fields = vec![FIRST_NAME_ID, LAST_NAME_ID, PHONE_NUMBER_ID];
        assert(ids_of(fields@) =~= focus_ids(with_card));
        FocusChain::new(fields)
    }
}

pub struct AddGuestScreen {
    error: String,
    first_name_input: TextBox,
    last_name_input: TextBox,
    has_id_card_checkbox: Checkbox,
    phone_number_input: PhoneNumberTextBox,
    date_of_birth_input: DateInput,
    id_card_ucn_input: UcnTextBox,
    id_card_number_input: IdCardNumberTextBox,
    id_card_issue_authority_input: TextBox,
    id_card_issue_date_input: DateInput,
    id_card_validity_input: DateInput,
    focus_chain: FocusChain,
}

pub struct AddGuestScreenView {
    pub error: Seq<char>,
    pub first_name_input: TextBoxView,
    pub last_name_input: TextBoxView,
    pub has_id_card_checkbox: CheckboxView,
    pub phone_number_input: RegexTextBoxView,
    pub date_of_birth_input: DateInputView,
    pub id_card_ucn_input: RegexTextBoxView,
    pub id_card_number_input: RegexTextBoxView,
    pub id_card_issue_authority_input: TextBoxView,
    pub id_card_issue_date_input: DateInputView,
    pub id_card_validity_input: DateInputView,
    pub focus_chain: FocusChainView,
}

/// `date` where it is not after `max_date`, else the complaint.
pub open spec fn date_not_after(date: Date, max_date: Date, complaint: Seq<char>) -> Result<
    Date,
    Seq<char>,
> {
    if date.is_after(max_date) {
        Err(complaint)
    } else {
        Ok(date)
    }
}

/// The view of a checked date.
pub open spec fn date_result(r: Result<Date, String>) -> Result<Date, Seq<char>> {
    match r {
        Ok(d) => Ok(d),
        Err(e) => Err(e@),
    }
}

/// The view of a checked card.
pub open spec fn card_result(r: Result<IdCard, String>) -> Result<IdCardView, Seq<char>> {
    match r {
        Ok(c) => Ok(c@),
        Err(e) => Err(e@),
    }
}

/// The view of a checked phone number.
pub open spec fn phone_result(r: Result<Option<String>, String>) -> Result<
    Option<Seq<char>>,
    Seq<char>,
> {
    match r {
        Ok(p) => Ok(opt_text(p)),
        Err(e) => Err(e@),
    }
}

/// The view of a checked form.
pub open spec fn input_result(r: Result<AddGuestInput, String>) -> Result<
    AddGuestInputView,
    Seq<char>,
> {
    match r {
        Ok(i) => Ok(i@),
        Err(e) => Err(e@),
    }
}

impl AddGuestScreenView {
    /// The form as it is first shown on the day `today`.
    pub open spec fn initial(today: Date) -> AddGuestScreenView {
        AddGuestScreenView {
            error: Seq::empty(),
            first_name_input: TextBoxView { text: Seq::empty(), max_length: NAME_MAX_LENGTH as nat },
            last_name_input: TextBoxView { text: Seq::empty(), max_length: NAME_MAX_LENGTH as nat },
            has_id_card_checkbox: CheckboxView { name: "Id card"@, is_checked: false },
            phone_number_input: RegexTextBoxView {
                text: Seq::empty(),
                max_length: PHONE_NUMBER_MAX_LENGTH as nat,
                pattern: PHONE_NUMBER_PATTERN@,
            },
            date_of_birth_input: DateInputView {
                date: today,
                show_picker: false,
                text: "Date of birth"@,
            },
            id_card_ucn_input: RegexTextBoxView {
                text: Seq::empty(),
                max_length: UCN_MAX_LENGTH as nat,
                pattern: UCN_PATTERN@,
            },
            id_card_number_input: RegexTextBoxView {
                text: Seq::empty(),
                max_length: ID_CARD_NUMBER_MAX_LENGTH as nat,
                pattern: ID_CARD_NUMBER_PATTERN@,
            },
            id_card_issue_authority_input: TextBoxView {
                text: Seq::empty(),
                max_length: ISSUE_AUTHORITY_MAX_LENGTH as nat,
            },
            id_card_issue_date_input: DateInputView {
                date: today,
                show_picker: false,
                text: "Issue Date"@,
            },
            id_card_validity_input: DateInputView {
                date: today,
                show_picker: false,
                text: "Valid Until"@,
            },
            focus_chain: FocusChainView { chain: focus_ids(false), selected: None },
        }
    }

    /// The card that the form describes, or the first complaint about it:
    /// the number, the card's number, the authority, then the dates, which
    /// have to lie around `today`.
    pub open spec fn card(self, today: Date) -> Result<IdCardView, Seq<char>> {
        if byte_len(self.id_card_ucn_input.text) < UCN_MIN_LENGTH {
            Err("Invalid UCN"@)
        } else if byte_len(self.id_card_number_input.text) < ID_CARD_NUMBER_MIN_LENGTH {
            Err("Invalid card number"@)
        } else if self.id_card_issue_authority_input.text.len() == 0 {
            Err("Invalid issue authority"@)
        } else if self.id_card_issue_date_input.date.is_after(today) {
            Err("Invalid card issue date"@)
        } else if today.is_after(self.id_card_validity_input.date) {
            Err("Invalid card validity date"@)
        } else {
            Ok(
                IdCardView {
                    ucn: self.id_card_ucn_input.text,
                    id_card_number: self.id_card_number_input.text,
                    issue_authority: self.id_card_issue_authority_input.text,
                    issue_date: self.id_card_issue_date_input.date,
                    validity_date: self.id_card_validity_input.date,
                },
            )
        }
    }

    /// The phone number that the form gives: none where the field is empty,
    /// a complaint where it is too short.
    pub open spec fn phone(self) -> Result<Option<Seq<char>>, Seq<char>> {
        if self.phone_number_input.text.len() == 0 {
            Ok(None)
        } else if byte_len(self.phone_number_input.text) < PHONE_NUMBER_MIN_LENGTH {
            Err("Invalid phone number"@)
        } else {
            Ok(Some(self.phone_number_input.text))
        }
    }

    /// What the form sends, or the first complaint about it: the names come
    /// first, then the date of birth, then the card where there is one, then
    /// the phone number.
    pub open spec fn input(self, today: Date) -> Result<AddGuestInputView, Seq<char>> {
        if self.first_name_input.text.len() == 0 {
            Err("Enter first name"@)
        } else if self.last_name_input.text.len() == 0 {
            Err("Enter last name"@)
        } else if self.date_of_birth_input.date.is_after(today) {
            Err("Invalid date of birth"@)
        } else if self.has_id_card_checkbox.is_checked && self.card(today) is Err {
            Err(self.card(today)->Err_0)
        } else if self.phone() is Err {
            Err(self.phone()->Err_0)
        } else {
            Ok(
                AddGuestInputView::of(
                    self.first_name_input.text,
                    self.last_name_input.text,
                    self.date_of_birth_input.date,
                    self.phone()->Ok_0,
                    if self.has_id_card_checkbox.is_checked {
                        Some(self.card(today)->Ok_0)
                    } else {
                        None
                    },
                ),
            )
        }
    }

    /// The form after the text of every field has been taken away, every
    /// date set to `today`, and the complaint taken away. The box for the
    /// card stays as it is.
    pub open spec fn clear_inputs(self, today: Date) -> AddGuestScreenView {
        AddGuestScreenView {
            first_name_input: self.first_name_input.clear(),
            last_name_input: self.last_name_input.clear(),
            id_card_issue_authority_input: self.id_card_issue_authority_input.clear(),
            id_card_number_input: self.id_card_number_input.clear(),
            id_card_ucn_input: self.id_card_ucn_input.clear(),
            phone_number_input: self.phone_number_input.clear(),
            date_of_birth_input: self.date_of_birth_input.update_date(today),
            id_card_issue_date_input: self.id_card_issue_date_input.update_date(today),
            id_card_validity_input: self.id_card_validity_input.update_date(today),
            error: Seq::empty(),
            ..self
        }
    }

    /// The form after a message of its own.
    pub open spec fn after(self, message: AddGuestMessage, today: Date) -> AddGuestScreenView {
        match message {
            AddGuestMessage::ChangeFirstName(text) => AddGuestScreenView {
                focus_chain: self.focus_chain.focus_on(Some(FIRST_NAME_ID@)),
                first_name_input: self.first_name_input.update(text@),
                ..self
            },
            AddGuestMessage::ChangeLastName(text) => AddGuestScreenView {
                focus_chain: self.focus_chain.focus_on(Some(LAST_NAME_ID@)),
                last_name_input: self.last_name_input.update(text@),
                ..self
            },
            AddGuestMessage::ChangeCheckbox(ticked) => AddGuestScreenView {
                focus_chain: (FocusChainView { chain: focus_ids(ticked), selected: None }).focus_on(
                    self.focus_chain.current(),
                ),
                has_id_card_checkbox: self.has_id_card_checkbox.update(ticked),
                ..self
            },
            AddGuestMessage::ChangePhoneNumber(text) => AddGuestScreenView {
                focus_chain: self.focus_chain.focus_on(Some(PHONE_NUMBER_ID@)),
                phone_number_input: self.phone_number_input.update(text@),
                ..self
            },
            AddGuestMessage::ChangeUcn(text) => AddGuestScreenView {
                focus_chain: self.focus_chain.focus_on(Some(ID_CARD_UCN_ID@)),
                id_card_ucn_input: self.id_card_ucn_input.update_uppercased(text@),
                ..self
            },
            AddGuestMessage::ChangeIdCardNumber(text) => AddGuestScreenView {
                focus_chain: self.focus_chain.focus_on(Some(ID_CARD_NUMBER_ID@)),
                id_card_number_input: self.id_card_number_input.update_uppercased(text@),
                ..self
            },
            AddGuestMessage::ChangeIdCardIssueAuthority(text) => AddGuestScreenView {
                focus_chain: self.focus_chain.focus_on(Some(ID_CARD_ISSUE_AUTHORITY_ID@)),
                id_card_issue_authority_input: self.id_card_issue_authority_input.update(text@),
                ..self
            },
            AddGuestMessage::ToggleShowIssueDate => AddGuestScreenView {
                id_card_issue_date_input: self.id_card_issue_date_input.toggle_show(),
                ..self
            },
            AddGuestMessage::ChangeIdCardIssueDate(date) => AddGuestScreenView {
                id_card_issue_date_input: self.id_card_issue_date_input.update_date(
                    date,
                ).toggle_show(),
                ..self
            },
            AddGuestMessage::ToggleShowValidityDate => AddGuestScreenView {
                id_card_validity_input: self.id_card_validity_input.toggle_show(),
                ..self
            },
            AddGuestMessage::ChangeIdCardValidityDate(date) => AddGuestScreenView {
                id_card_validity_input: self.id_card_validity_input.update_date(date).toggle_show(),
                ..self
            },
            AddGuestMessage::ToggleShowDateOfBirth => AddGuestScreenView {
                date_of_birth_input: self.date_of_birth_input.toggle_show(),
                ..self
            },
            AddGuestMessage::ChangeDateOfBirth(date) => AddGuestScreenView {
                date_of_birth_input: self.date_of_birth_input.update_date(date).toggle_show(),
                ..self
            },
            AddGuestMessage::AddGuest => match self.input(today) {
                Ok(_) => self,
                Err(complaint) => AddGuestScreenView { error: complaint, ..self },
            },
            AddGuestMessage::ShowError(err) => AddGuestScreenView { error: err@, ..self },
            AddGuestMessage::GuestAdded(_) => self.clear_inputs(today),
        }
    }

    /// What a message of the form's own asks for: a form in order is sent,
    /// and a guest added is announced.
    pub open spec fn asks(self, message: AddGuestMessage, token: Option<Seq<char>>, today: Date) -> Seq<
        ActionView,
    > {
        match message {
            AddGuestMessage::AddGuest => match self.input(today) {
                Ok(input) => seq![ActionView::AddGuest { token, input }],
                Err(_) => nothing(),
            },
            AddGuestMessage::GuestAdded(_) => seq![
                ActionView::Notify {
                    message: "Guest added"@,
                    notification_type: NotificationType::Success,
                },
            ],
            _ => nothing(),
        }
    }

    /// The form after any message, and what the message asks for.
    pub open spec fn step(self, message: AppMessage, global: GlobalStateView, today: Date) -> (
        AddGuestScreenView,
        Seq<ActionView>,
    ) {
        match message {
            AppMessage::AddGuestMessage(m) => (
                self.after(m, today),
                self.asks(m, global.token_text(), today),
            ),
            AppMessage::SelectNext => (
                AddGuestScreenView { focus_chain: self.focus_chain.advance(), ..self },
                focus_actions(self.focus_chain.advance().current()),
            ),
            AppMessage::SelectPrev => (
                AddGuestScreenView { focus_chain: self.focus_chain.retreat(), ..self },
                focus_actions(self.focus_chain.retreat().current()),
            ),
            _ => (self, nothing()),
        }
    }
}

impl View for AddGuestScreen {
    type V = AddGuestScreenView;

    closed spec fn view(&self) -> AddGuestScreenView {
        AddGuestScreenView {
            error: self.error@,
            first_name_input: self.first_name_input@,
            last_name_input: self.last_name_input@,
            has_id_card_checkbox: self.has_id_card_checkbox@,
            phone_number_input: self.phone_number_input@,
            date_of_birth_input: self.date_of_birth_input@,
            id_card_ucn_input: self.id_card_ucn_input@,
            id_card_number_input: self.id_card_number_input@,
            id_card_issue_authority_input: self.id_card_issue_authority_input@,
            id_card_issue_date_input: self.id_card_issue_date_input@,
            id_card_validity_input: self.id_card_validity_input@,
            focus_chain: self.focus_chain@,
        }
    }
}

/// The message for the outcome of adding a guest.
pub fn map_add_guest_result(result: Result<AddGuestResult, String>) -> (r: AppMessage)
    ensures
        match result {
            Ok(AddGuestResult::GuestAdded(id)) => r == AppMessage::AddGuestMessage(
                AddGuestMessage::GuestAdded(id),
            ),
            Ok(AddGuestResult::Forbidden) => r == AppMessage::TokenExpired,
            Ok(AddGuestResult::BadRequest(err)) => r == AppMessage::AddGuestMessage(
                AddGuestMessage::ShowError(err),
            ),
            Err(err) => r == AppMessage::AddGuestMessage(AddGuestMessage::ShowError(err)),
        },
{
    match result {
        Ok(AddGuestResult::GuestAdded(id)) => AppMessage::AddGuestMessage(
            AddGuestMessage::GuestAdded(id),
        ),
        Ok(AddGuestResult::Forbidden) => AppMessage::TokenExpired,
        Ok(AddGuestResult::BadRequest(err)) => AppMessage::AddGuestMessage(
            AddGuestMessage::ShowError(err),
        ),
        Err(err) => AppMessage::AddGuestMessage(AddGuestMessage::ShowError(err)),
    }
}

impl AddGuestScreen {
    /// The form as it is first shown on the day `today`.
    pub fn new(today: Date) -> (r: Self)
        ensures
            r@ == AddGuestScreenView::initial(today),
    {
        proof {
            reveal_strlit("");
            assert(""@ =~= Seq::<char>::empty());
        }
        Self {
            error: String::new(),
            first_name_input: TextBox::new("", NAME_MAX_LENGTH),
            last_name_input: TextBox::new("", NAME_MAX_LENGTH),
            has_id_card_checkbox: Checkbox::new("Id card", false),
            phone_number_input: PhoneNumberTextBox::new(""),
            id_card_ucn_input: UcnTextBox::new(""),
            id_card_number_input: IdCardNumberTextBox::new(""),
            id_card_issue_authority_input: TextBox::new("", ISSUE_AUTHORITY_MAX_LENGTH),
            id_card_issue_date_input: DateInput::new("Issue Date", today),
            id_card_validity_input: DateInput::new("Valid Until", today),
            date_of_birth_input: DateInput::new("Date of birth", today),
            focus_chain: focus_chain_for(false),
        }
    }

    /// `date` where it is not after `max_date`, else the complaint `message`.
    pub fn validate_date_before(date: Date, max_date: Date, message: &str) -> (r: Result<
        Date,
        String,
    >)
        ensures
            date_result(r) == date_not_after(date, max_date, message@),
    {
        if date.after(&max_date) {
            return Err(message.to_owned());
        }
        Ok(date)
    }

    /// The card that the form describes on the day `today`, or the first
    /// complaint about it.
    pub fn retrieve_and_validate_card(&self, today: Date) -> (r: Result<IdCard, String>)
        ensures
            card_result(r) == self@.card(today),
    {
        if byte_length(self.id_card_ucn_input.get_text()) < UCN_MIN_LENGTH {
            return Err("Invalid UCN".to_owned());
        }
        let ucn = self.id_card_ucn_input.get_text().to_owned();
        if byte_length(self.id_card_number_input.get_text()) < ID_CARD_NUMBER_MIN_LENGTH {
            return Err("Invalid card number".to_owned());
        }
        let id_card_number = self.id_card_number_input.get_text().to_owned();
        if self.id_card_issue_authority_input.get_text().is_empty() {
            return Err("Invalid issue authority".to_owned());
        }
        let issue_authority = self.id_card_issue_authority_input.get_text().to_owned();
        let issue_date = match Self::validate_date_before(
            self.id_card_issue_date_input.get_date(),
            today,
            "Invalid card issue date",
        ) {
            Ok(date) => date,
            Err(e) => {
                return Err(e);
            },
        };
        match Self::validate_date_before(
            today,
            self.id_card_validity_input.get_date(),
            "Invalid card validity date",
        ) {
            Ok(_) => {},
            Err(e) => {
                return Err(e);
            },
        }
        let validity_date = self.id_card_validity_input.get_date();
        Ok(IdCard { ucn, id_card_number, issue_authority, issue_date, validity_date })
    }

    /// The phone number that the form gives, or the complaint about it.
    pub fn retrieve_and_validate_phone(&self) -> (r: Result<Option<String>, String>)
        ensures
            phone_result(r) == self@.phone(),
    {
        let phone = self.phone_number_input.get_text();
        if phone.is_empty() {
            Ok(None)
        } else if byte_length(phone) < PHONE_NUMBER_MIN_LENGTH {
            Err("Invalid phone number".to_owned())
        } else {
            Ok(Some(phone.to_owned()))
        }
    }

    /// What the form sends on the day `today`, or the first complaint about
    /// it.
    pub fn retrieve_and_validate_input(&self, today: Date) -> (r: Result<AddGuestInput, String>)
        ensures
            input_result(r) == self@.input(today),
    {
        if self.first_name_input.get_text().is_empty() {
            return Err("Enter first name".to_owned());
        }
        if self.last_name_input.get_text().is_empty() {
            return Err("Enter last name".to_owned());
        }
        let date_of_birth = match Self::validate_date_before(
            self.date_of_birth_input.get_date(),
            today,
            "Invalid date of birth",
        ) {
            Ok(date) => date,
            Err(e) => {
                return Err(e);
            },
        };
        let id_card = if self.has_id_card_checkbox.is_checked() {
            match self.retrieve_and_validate_card(today) {
                Ok(card) => Some(card),
                Err(e) => {
                    return Err(e);
                },
            }
        } else {
            None
        };
        let phone_number = match self.retrieve_and_validate_phone() {
            Ok(phone) => phone,
            Err(e) => {
                return Err(e);
            },
        };
        Ok(
            AddGuestInput::new(
                self.first_name_input.get_text().to_owned(),
                self.last_name_input.get_text().to_owned(),
                date_of_birth,
                phone_number,
                id_card,
            ),
        )
    }

    fn add_guest(&mut self, global_state: &GlobalState, today: Date) -> (actions: Vec<Action>)
        ensures
            final(self)@ == old(self)@.after(AddGuestMessage::AddGuest, today),
            actions_view(actions@) == old(self)@.asks(
                AddGuestMessage::AddGuest,
                global_state@.token_text(),
                today,
            ),
    {
        match self.retrieve_and_validate_input(today) {
            Ok(input) => one_action(Action::AddGuest { token: global_state.token_string(), input }),
            Err(complaint) => {
                self.error = complaint;
                no_actions()
            },
        }
    }

    fn clear_inputs(&mut self, today: Date)
        ensures
            final(self)@ == old(self)@.clear_inputs(today),
    {
        self.first_name_input.clear();
        self.last_name_input.clear();
        self.id_card_issue_authority_input.clear();
        self.id_card_number_input.clear();
        self.id_card_ucn_input.clear();
        self.phone_number_input.clear();
        self.date_of_birth_input.update_date(today);
        self.id_card_issue_date_input.update_date(today);
        self.id_card_validity_input.update_date(today);
        self.error = String::new();
    }

    /// Takes a message and says what it asks for. `today` is the day on
    /// which the message is taken; `global_state` is read for the session's
    /// token.
    pub fn update(&mut self, message: AppMessage, global_state: &GlobalState, today: Date) -> (actions:
        Vec<Action>)
        ensures
            final(self)@ == old(self)@.step(message, global_state@, today).0,
            actions_view(actions@) == old(self)@.step(message, global_state@, today).1,
    {
        match message {
            AppMessage::AddGuestMessage(m) => match m {
                AddGuestMessage::ChangeFirstName(x) => {
                    self.focus_chain.set_focus(Some(FIRST_NAME_ID));
                    self.first_name_input.update(x);
                    no_actions()
                },
                AddGuestMessage::ChangeLastName(x) => {
                    self.focus_chain.set_focus(Some(LAST_NAME_ID));
                    self.last_name_input.update(x);
                    no_actions()
                },
                AddGuestMessage::ChangeCheckbox(x) => {
                    let selected = self.focus_chain.get_selected();
                    self.focus_chain = focus_chain_for(x);
                    self.focus_chain.set_focus(selected);
                    self.has_id_card_checkbox.update(x);
                    no_actions()
                },
                AddGuestMessage::ChangePhoneNumber(x) => {
                    self.focus_chain.set_focus(Some(PHONE_NUMBER_ID));
                    self.phone_number_input.update(x);
                    no_actions()
                },
                AddGuestMessage::ChangeUcn(x) => {
                    self.focus_chain.set_focus(Some(ID_CARD_UCN_ID));
                    self.id_card_ucn_input.update(x);
                    no_actions()
                },
                AddGuestMessage::ChangeIdCardNumber(x) => {
                    self.focus_chain.set_focus(Some(ID_CARD_NUMBER_ID));
                    self.id_card_number_input.update(x);
                    no_actions()
                },
                AddGuestMessage::ChangeIdCardIssueAuthority(x) => {
                    self.focus_chain.set_focus(Some(ID_CARD_ISSUE_AUTHORITY_ID));
                    self.id_card_issue_authority_input.update(x);
                    no_actions()
                },
                AddGuestMessage::ToggleShowIssueDate => {
                    self.id_card_issue_date_input.toggle_show();
                    no_actions()
                },
                AddGuestMessage::ChangeIdCardIssueDate(date) => {
                    self.id_card_issue_date_input.update_date(date);
                    self.id_card_issue_date_input.toggle_show();
                    no_actions()
                },
                AddGuestMessage::ToggleShowValidityDate => {
                    self.id_card_validity_input.toggle_show();
                    no_actions()
                },
                AddGuestMessage::ChangeIdCardValidityDate(date) => {
                    self.id_card_validity_input.update_date(date);
                    self.id_card_validity_input.toggle_show();
                    no_actions()
                },
                AddGuestMessage::ToggleShowDateOfBirth => {
                    self.date_of_birth_input.toggle_show();
                    no_actions()
                },
                AddGuestMessage::ChangeDateOfBirth(date) => {
                    self.date_of_birth_input.update_date(date);
                    self.date_of_birth_input.toggle_show();
                    no_actions()
                },
                AddGuestMessage::AddGuest => self.add_guest(global_state, today),
                AddGuestMessage::ShowError(err) => {
                    self.error = err;
                    no_actions()
                },
                AddGuestMessage::GuestAdded(_uuid) => {
                    self.clear_inputs(today);
                    one_action(
                        Action::Notify {
                            message: "Guest added".to_owned(),
                            notification_type: NotificationType::Success,
                        },
                    )
                },
            },
            AppMessage::SelectNext => {
                self.focus_chain.set_next();
                focus_on(self.focus_chain.apply_focus())
            },
            AppMessage::SelectPrev => {
                self.focus_chain.set_prev();
                focus_on(self.focus_chain.apply_focus())
            },
            _ => no_actions(),
        }
    }

    /// The complaint shown on the form.
    pub fn error(&self) -> (r: &str)
        ensures
            r@ == self@.error,
    {
        self.error.as_str()
    }

    pub fn first_name_input(&self) -> (r: &TextBox)
        ensures
            r@ == self@.first_name_input,
    {
        &self.first_name_input
    }

    pub fn last_name_input(&self) -> (r: &TextBox)
        ensures
            r@ == self@.last_name_input,
    {
        &self.last_name_input
    }

    pub fn has_id_card_checkbox(&self) -> (r: &Checkbox)
        ensures
            r@ == self@.has_id_card_checkbox,
    {
        &self.has_id_card_checkbox
    }

    pub fn phone_number_input(&self) -> (r: &PhoneNumberTextBox)
        ensures
            r@ == self@.phone_number_input,
    {
        &self.phone_number_input
    }

    pub fn date_of_birth_input(&self) -> (r: &DateInput)
        ensures
            r@ == self@.date_of_birth_input,
    {
        &self.date_of_birth_input
    }

    pub fn id_card_ucn_input(&self) -> (r: &UcnTextBox)
        ensures
            r@ == self@.id_card_ucn_input,
    {
        &self.id_card_ucn_input
    }

    pub fn id_card_number_input(&self) -> (r: &IdCardNumberTextBox)
        ensures
            r@ == self@.id_card_number_input,
    {
        &self.id_card_number_input
    }

    pub fn id_card_issue_authority_input(&self) -> (r: &TextBox)
        ensures
            r@ == self@.id_card_issue_authority_input,
    {
        &self.id_card_issue_authority_input
    }

    pub fn id_card_issue_date_input(&self) -> (r: &DateInput)
        ensures
            r@ == self@.id_card_issue_date_input,
    {
        &self.id_card_issue_date_input
    }

    pub fn id_card_validity_input(&self) -> (r: &DateInput)
        ensures
            r@ == self@.id_card_validity_input,
    {
        &self.id_card_validity_input
    }

    pub fn focus_chain(&self) -> (r: &FocusChain)
        ensures
            r@ == self@.focus_chain,
    {
        &self.focus_chain
    }
}

} // verus!
