//! The two steps of booking a room: the stay and the room, then the guests.

use vstd::prelude::*;
use crate::action::{
    actions_view,
    focus_actions,
    focus_on,
    guest_load_actions,
    load_guests,
    load_rooms,
    no_actions,
    nothing,
    one_action,
    room_load_actions,
    Action,
    ActionView,
};
use crate::app::{AppMessage, GlobalState, GlobalStateView};
use crate::components::checkbox::{Checkbox, CheckboxView};
use crate::components::date_input::{DateInput, DateInputView};
use crate::components::focus_chain::{ids_of, pairwise_distinct, FocusChain, FocusChainView};
use crate::components::list_input::guest_list_input::{GuestListInput, GuestListInputView};
use crate::components::list_input::{load_request, INITIAL_LOAD};
use crate::components::notification::NotificationType;
use crate::components::room_list_input::{RoomListInput, RoomListInputView};
use crate::components::text_box::number_text_box::{
    NumberTextBox,
    NumberType,
    POSITIVE_INTEGER_PATTERN,
};
use crate::components::text_box::phone_number_text_box::{
    PhoneNumberTextBox,
    PHONE_NUMBER_MAX_LENGTH,
    PHONE_NUMBER_PATTERN,
};
use crate::components::text_box::regex_text_box::RegexTextBoxView;
use crate::components::text_box::text_box::{TextBox, TextBoxView, TextElement};
use crate::components::text_box::ucn_text_box::{UcnTextBox, UCN_MAX_LENGTH, UCN_PATTERN};
use crate::date::Date;
use crate::model::guest::{Guest, GuestView};
use crate::model::room::Room;
use crate::services::find_guest::{FindGuestInput, FindGuestInputView, FindGuestResult};
use crate::services::find_unoccupied_rooms::{FindUnoccupiedRoomsInput, FindUnoccupiedRoomsResult};
use crate::services::get_guest::GetGuestResult;
use crate::services::get_room::GetRoomResult;
use crate::text::{numeral_i16, opt_text, parse_i16};
use crate::utils::show_notification;

verus! {

#[derive(Debug, Clone, Copy, PartialEq, Eq, Structural)]
pub enum BookRoomStep {
    DateAndRoom,
    AddGuests,
}

pub const MIN_CAPACITY_ID: &'static str = "Book Room Min Capacity";

pub const MAX_CAPACITY_ID: &'static str = "Book Room Max Capacity";

pub const FIRST_NAME_ID: &'static str = "Book Room First Name";

pub const LAST_NAME_ID: &'static str = "Book Room Last Name";

pub const PHONE_NUMBER_ID: &'static str = "Book Room Phone";

pub const UCN_ID: &'static str = "Book Room UCN";

/// The most bytes in a bound on how many a room sleeps.
pub const CAPACITY_MAX_LENGTH: usize = 2;

/// The most bytes in a name to search by.
pub const NAME_MAX_LENGTH: usize = 20;

impl BookRoomStep {
    /// The fields of a step in the order that Tab visits them.
    pub open spec fn field_ids(self) -> Seq<Seq<char>> {
        match self {
            BookRoomStep::DateAndRoom => seq![MIN_CAPACITY_ID@, MAX_CAPACITY_ID@],
            BookRoomStep::AddGuests => seq![
                FIRST_NAME_ID@,
                LAST_NAME_ID@,
                UCN_ID@,
                PHONE_NUMBER_ID@,
            ],
        }
    }

    /// The chain of a step with no field in focus.
    pub open spec fn focus_chain(self) -> FocusChainView {
        FocusChainView { chain: self.field_ids(), selected: None }
    }

    pub fn get_focus_chain(self) -> (r: FocusChain)
        ensures
            r@ == self.focus_chain(),
    {
        match self {
            BookRoomStep::DateAndRoom => {
                let fields = vec![MIN_CAPACITY_ID, MAX_CAPACITY_ID];
                assert(ids_of(fields@) =~= self.field_ids());
                FocusChain::new(fields)
            },
            BookRoomStep::AddGuests => {
                let fields = vec![FIRST_NAME_ID, LAST_NAME_ID, UCN_ID, PHONE_NUMBER_ID];
                assert(ids_of(fields@) =~= self.field_ids());
                FocusChain::new(fields)
            },
        }
    }
}

/// No step lists a field twice: every field of a step has an id of its own.
pub proof fn lemma_field_ids_distinct(step: BookRoomStep)
    ensures
        pairwise_distinct(step.field_ids()),
{
    reveal_strlit("Book Room Min Capacity");
    reveal_strlit("Book Room Max Capacity");
    reveal_strlit("Book Room First Name");
    reveal_strlit("Book Room Last Name");
    reveal_strlit("Book Room UCN");
    reveal_strlit("Book Room Phone");
    assert(MIN_CAPACITY_ID@ != MAX_CAPACITY_ID@) by {
        assert(MIN_CAPACITY_ID@[11] != MAX_CAPACITY_ID@[11]);
    }
    assert(MIN_CAPACITY_ID@ != FIRST_NAME_ID@) by {
        assert(MIN_CAPACITY_ID@.len() != FIRST_NAME_ID@.len());
    }
    assert(MIN_CAPACITY_ID@ != LAST_NAME_ID@) by {
        assert(MIN_CAPACITY_ID@.len() != LAST_NAME_ID@.len());
    }
    assert(MIN_CAPACITY_ID@ != UCN_ID@) by {
        assert(MIN_CAPACITY_ID@.len() != UCN_ID@.len());
    }
    assert(MIN_CAPACITY_ID@ != PHONE_NUMBER_ID@) by {
        assert(MIN_CAPACITY_ID@.len() != PHONE_NUMBER_ID@.len());
    }
    assert(MAX_CAPACITY_ID@ != FIRST_NAME_ID@) by {
        assert(MAX_CAPACITY_ID@.len() != FIRST_NAME_ID@.len());
    }
    assert(MAX_CAPACITY_ID@ != LAST_NAME_ID@) by {
        assert(MAX_CAPACITY_ID@.len() != LAST_NAME_ID@.len());
    }
    assert(MAX_CAPACITY_ID@ != UCN_ID@) by {
        assert(MAX_CAPACITY_ID@.len() != UCN_ID@.len());
    }
    assert(MAX_CAPACITY_ID@ != PHONE_NUMBER_ID@) by {
        assert(MAX_CAPACITY_ID@.len() != PHONE_NUMBER_ID@.len());
    }
    assert(FIRST_NAME_ID@ != LAST_NAME_ID@) by {
        assert(FIRST_NAME_ID@.len() != LAST_NAME_ID@.len());
    }
    assert(FIRST_NAME_ID@ != UCN_ID@) by {
        assert(FIRST_NAME_ID@.len() != UCN_ID@.len());
    }
    assert(FIRST_NAME_ID@ != PHONE_NUMBER_ID@) by {
        assert(FIRST_NAME_ID@.len() != PHONE_NUMBER_ID@.len());
    }
    assert(LAST_NAME_ID@ != UCN_ID@) by {
        assert(LAST_NAME_ID@.len() != UCN_ID@.len());
    }
    assert(LAST_NAME_ID@ != PHONE_NUMBER_ID@) by {
        assert(LAST_NAME_ID@.len() != PHONE_NUMBER_ID@.len());
    }
    assert(UCN_ID@ != PHONE_NUMBER_ID@) by {
        assert(UCN_ID@.len() != PHONE_NUMBER_ID@.len());
    }
}

#[derive(Debug, Clone)]
pub enum BookRoomMessage {
    SetError(String),
    SetStep(BookRoomStep),
    ChangeMinimumCapacity(String),
    ChangeMaximumCapacity(String),
    ChangeStartDate(Date),
    ToggleShowStartDate,
    ChangeEndDate(Date),
    ToggleShowEndDate,
    FindFreeRooms,
    FoundFreeRooms(Vec<u128>),
    RoomLoaded(Box<Room>),
    /// The list of rooms has been scrolled to the row with this number.
    ScrollRooms(usize),
    SelectRoom(u128),
    ChangeFirstName(String),
    ChangeLastName(String),
    ChangeUCN(String),
    ChangeDateOfBirth(Date),
    ChangeSearchByDateOfBirth(bool),
    ToggleShowDateOfBirth,
    ChangePhoneNumber(String),
    FindGuests,
    FoundGuests(Vec<u128>),
    GuestLoaded(Box<Guest>),
    /// The list of guests has been scrolled to the row with this number.
    ScrollGuests(usize),
    AddGuest(u128),
    SetSelectedMainGuest(u128),
    RemoveAddedGuest(u128),
}

pub struct BookRoomScreen {
    current_step: BookRoomStep,
    focus_chain: FocusChain,
    minimum_capacity_input: NumberTextBox,
    maximum_capacity_input: NumberTextBox,
    start_date_input: DateInput,
    end_date_input: DateInput,
    select_room_input: RoomListInput,
    select_guest_input: GuestListInput,
    selected_guests: Vec<Guest>,
    main_guest_id: Option<u128>,
    first_name_input: TextBox,
    last_name_input: TextBox,
    ucn_input: UcnTextBox,
    phone_number_input: PhoneNumberTextBox,
    date_of_birth_input: DateInput,
    search_by_date_of_birth_checkbox: Checkbox,
    error: String,
}

pub struct BookRoomScreenView {
    pub current_step: BookRoomStep,
    pub focus_chain: FocusChainView,
    pub minimum_capacity_input: RegexTextBoxView,
    pub maximum_capacity_input: RegexTextBoxView,
    pub start_date_input: DateInputView,
    pub end_date_input: DateInputView,
    pub select_room_input: RoomListInputView,
    pub select_guest_input: GuestListInputView,
    pub selected_guests: Seq<GuestView>,
    pub main_guest_id: Option<u128>,
    pub first_name_input: TextBoxView,
    pub last_name_input: TextBoxView,
    pub ucn_input: RegexTextBoxView,
    pub phone_number_input: RegexTextBoxView,
    pub date_of_birth_input: DateInputView,
    pub search_by_date_of_birth_checkbox: CheckboxView,
    pub error: Seq<char>,
}

/// The guests of a list as values.
pub open spec fn guests_view(guests: Seq<Guest>) -> Seq<GuestView> {
    Seq::new(guests.len(), |i: int| guests[i]@)
}

/// Whether a guest with the given id is among `guests`.
pub open spec fn has_guest(guests: Seq<GuestView>, id: u128) -> bool {
    exists|i: int| 0 <= i < guests.len() && (#[trigger] guests[i]).id == id
}

/// Whether no two guests of the list have one id.
pub open spec fn distinct_guests(guests: Seq<GuestView>) -> bool {
    forall|i: int, j: int| 0 <= i < j < guests.len() ==> guests[i].id != guests[j].id
}

/// The test for a guest with another id than `id`.
pub open spec fn is_other_guest(id: u128) -> spec_fn(GuestView) -> bool {
    |guest: GuestView| guest.id != id
}

/// The bound that a text gives: none where the text is empty or no number.
pub open spec fn optional_number(text: Seq<char>) -> Option<i16> {
    if text.len() == 0 {
        None
    } else {
        numeral_i16(text)
    }
}

/// A text to search by: none where the field is empty.
pub open spec fn text_if_not_empty(text: Seq<char>) -> Option<Seq<char>> {
    if text.len() == 0 {
        None
    } else {
        Some(text)
    }
}

impl BookRoomScreenView {
    /// What holds of the screen after every step: each room and each guest
    /// fetched stands under their own id, and no guest is in the booking
    /// twice.
    pub open spec fn wf(self) -> bool {
        &&& self.select_room_input.keyed()
        &&& self.select_guest_input.keyed()
        &&& distinct_guests(self.selected_guests)
    }

    /// The screen as it is first shown on the day `today`.
    pub open spec fn initial(today: Date) -> BookRoomScreenView {
        BookRoomScreenView {
            current_step: BookRoomStep::DateAndRoom,
            focus_chain: BookRoomStep::DateAndRoom.focus_chain(),
            minimum_capacity_input: RegexTextBoxView {
                text: Seq::empty(),
                max_length: CAPACITY_MAX_LENGTH as nat,
                pattern: POSITIVE_INTEGER_PATTERN@,
            },
            maximum_capacity_input: RegexTextBoxView {
                text: Seq::empty(),
                max_length: CAPACITY_MAX_LENGTH as nat,
                pattern: POSITIVE_INTEGER_PATTERN@,
            },
            start_date_input: DateInputView { date: today, show_picker: false, text: "Start"@ },
            end_date_input: DateInputView { date: today, show_picker: false, text: "End"@ },
            select_room_input: RoomListInputView::empty(),
            select_guest_input: GuestListInputView::empty(),
            selected_guests: Seq::empty(),
            main_guest_id: None,
            first_name_input: TextBoxView { text: Seq::empty(), max_length: NAME_MAX_LENGTH as nat },
            last_name_input: TextBoxView { text: Seq::empty(), max_length: NAME_MAX_LENGTH as nat },
            ucn_input: RegexTextBoxView {
                text: Seq::empty(),
                max_length: UCN_MAX_LENGTH as nat,
                pattern: UCN_PATTERN@,
            },
            phone_number_input: RegexTextBoxView {
                text: Seq::empty(),
                max_length: PHONE_NUMBER_MAX_LENGTH as nat,
                pattern: PHONE_NUMBER_PATTERN@,
            },
            date_of_birth_input: DateInputView {
                date: today,
                show_picker: false,
                text: "Date of birth"@,
            },
            search_by_date_of_birth_checkbox: CheckboxView {
                name: "Search by date of birth"@,
                is_checked: false,
            },
            error: Seq::empty(),
        }
    }

    /// The search for free rooms that the first step describes. A bound left
    /// empty, or one that is no number, bounds nothing.
    pub open spec fn find_rooms_input(self) -> FindUnoccupiedRoomsInput {
        FindUnoccupiedRoomsInput {
            start_date: self.start_date_input.date,
            end_date: self.end_date_input.date,
            minimum_capacity: optional_number(self.minimum_capacity_input.text),
            maximum_capacity: optional_number(self.maximum_capacity_input.text),
        }
    }

    /// The search for guests that the second step describes: every field
    /// that is not empty, and the date of birth only where its box is
    /// ticked.
    pub open spec fn find_guests_input(self) -> FindGuestInputView {
        FindGuestInputView {
            first_name: text_if_not_empty(self.first_name_input.text),
            last_name: text_if_not_empty(self.last_name_input.text),
            date_of_birth: if self.search_by_date_of_birth_checkbox.is_checked {
                Some(self.date_of_birth_input.date.text())
            } else {
                None
            },
            ucn: text_if_not_empty(self.ucn_input.text),
            phone_number: text_if_not_empty(self.phone_number_input.text),
        }
    }

    /// The screen after the guest `id` has been asked for: the guest joins
    /// the booking where they have been fetched and are not in it yet.
    pub open spec fn add_guest_to_booking(self, id: u128) -> BookRoomScreenView {
        if !has_guest(self.selected_guests, id) && self.select_guest_input.loaded.contains_key(id) {
            BookRoomScreenView {
                selected_guests: self.selected_guests.push(self.select_guest_input.loaded[id]),
                ..self
            }
        } else {
            self
        }
    }

    /// The screen after the guest `id` has been taken out of the booking; a
    /// main guest who is taken out is main guest no more.
    pub open spec fn remove_added_guest(self, id: u128) -> BookRoomScreenView {
        BookRoomScreenView {
            main_guest_id: if self.main_guest_id == Some(id) {
                None
            } else {
                self.main_guest_id
            },
            selected_guests: self.selected_guests.filter(is_other_guest(id)),
            ..self
        }
    }

    /// The screen after a message of its own.
    pub open spec fn after(self, message: BookRoomMessage) -> BookRoomScreenView {
        match message {
            BookRoomMessage::SetError(err) => BookRoomScreenView { error: err@, ..self },
            BookRoomMessage::SetStep(step) => BookRoomScreenView {
                current_step: step,
                focus_chain: step.focus_chain(),
                ..self
            },
            BookRoomMessage::ChangeMinimumCapacity(text) => BookRoomScreenView {
                focus_chain: self.focus_chain.focus_on(Some(MIN_CAPACITY_ID@)),
                minimum_capacity_input: self.minimum_capacity_input.update(text@),
                ..self
            },
            BookRoomMessage::ChangeMaximumCapacity(text) => BookRoomScreenView {
                focus_chain: self.focus_chain.focus_on(Some(MAX_CAPACITY_ID@)),
                maximum_capacity_input: self.maximum_capacity_input.update(text@),
                ..self
            },
            BookRoomMessage::ChangeStartDate(date) => BookRoomScreenView {
                start_date_input: self.start_date_input.update_date(date).toggle_show(),
                ..self
            },
            BookRoomMessage::ToggleShowStartDate => BookRoomScreenView {
                start_date_input: self.start_date_input.toggle_show(),
                ..self
            },
            BookRoomMessage::ChangeEndDate(date) => BookRoomScreenView {
                end_date_input: self.end_date_input.update_date(date).toggle_show(),
                ..self
            },
            BookRoomMessage::ToggleShowEndDate => BookRoomScreenView {
                end_date_input: self.end_date_input.toggle_show(),
                ..self
            },
            BookRoomMessage::FindFreeRooms => self,
            BookRoomMessage::FoundFreeRooms(ids) => BookRoomScreenView {
                error: Seq::empty(),
                select_room_input: self.select_room_input.update_ids(ids@),
                ..self
            },
            BookRoomMessage::RoomLoaded(room) => BookRoomScreenView {
                select_room_input: self.select_room_input.update_loaded(room@),
                ..self
            },
            BookRoomMessage::ScrollRooms(_) => self,
            BookRoomMessage::SelectRoom(id) => BookRoomScreenView {
                select_room_input: self.select_room_input.set_selected(Some(id)),
                ..self
            },
            BookRoomMessage::ChangeFirstName(text) => BookRoomScreenView {
                focus_chain: self.focus_chain.focus_on(Some(FIRST_NAME_ID@)),
                first_name_input: self.first_name_input.update(text@),
                ..self
            },
            BookRoomMessage::ChangeLastName(text) => BookRoomScreenView {
                focus_chain: self.focus_chain.focus_on(Some(LAST_NAME_ID@)),
                last_name_input: self.last_name_input.update(text@),
                ..self
            },
            BookRoomMessage::ChangeUCN(text) => BookRoomScreenView {
                focus_chain: self.focus_chain.focus_on(Some(UCN_ID@)),
                ucn_input: self.ucn_input.update_uppercased(text@),
                ..self
            },
            BookRoomMessage::ChangeDateOfBirth(date) => BookRoomScreenView {
                date_of_birth_input: self.date_of_birth_input.toggle_show().update_date(date),
                ..self
            },
            BookRoomMessage::ChangeSearchByDateOfBirth(ticked) => BookRoomScreenView {
                search_by_date_of_birth_checkbox: self.search_by_date_of_birth_checkbox.update(
                    ticked,
                ),
                ..self
            },
            BookRoomMessage::ToggleShowDateOfBirth => BookRoomScreenView {
                date_of_birth_input: self.date_of_birth_input.toggle_show(),
                ..self
            },
            BookRoomMessage::ChangePhoneNumber(text) => BookRoomScreenView {
                focus_chain: self.focus_chain.focus_on(Some(PHONE_NUMBER_ID@)),
                phone_number_input: self.phone_number_input.update(text@),
                ..self
            },
            BookRoomMessage::FindGuests => BookRoomScreenView { error: Seq::empty(), ..self },
            BookRoomMessage::FoundGuests(ids) => BookRoomScreenView {
                select_guest_input: self.select_guest_input.update_ids(ids@),
                ..self
            },
            BookRoomMessage::GuestLoaded(guest) => BookRoomScreenView {
                select_guest_input: self.select_guest_input.update_loaded(guest@),
                ..self
            },
            BookRoomMessage::ScrollGuests(_) => self,
            BookRoomMessage::AddGuest(id) => self.add_guest_to_booking(id),
            BookRoomMessage::SetSelectedMainGuest(id) => BookRoomScreenView {
                main_guest_id: Some(id),
                ..self
            },
            BookRoomMessage::RemoveAddedGuest(id) => self.remove_added_guest(id),
        }
    }

    /// What a message of the screen's own asks for, with the session's token
    /// as it stands.
    pub open spec fn asks(self, message: BookRoomMessage, token: Option<Seq<char>>) -> Seq<
        ActionView,
    > {
        match message {
            BookRoomMessage::FindFreeRooms => seq![
                ActionView::FindFreeRooms { token, input: self.find_rooms_input() },
            ],
            BookRoomMessage::FoundFreeRooms(ids) => room_load_actions(
                load_request(token, ids@, self.select_room_input.loaded.dom(), INITIAL_LOAD as nat),
            ),
            BookRoomMessage::ScrollRooms(number) => room_load_actions(
                load_request(
                    token,
                    self.select_room_input.ids,
                    self.select_room_input.loaded.dom(),
                    number as nat,
                ),
            ),
            BookRoomMessage::FindGuests => seq![
                ActionView::FindGuests { token, input: self.find_guests_input() },
            ],
            BookRoomMessage::FoundGuests(ids) => guest_load_actions(
                load_request(token, ids@, self.select_guest_input.loaded.dom(), INITIAL_LOAD as nat),
            ),
            BookRoomMessage::ScrollGuests(number) => guest_load_actions(
                load_request(
                    token,
                    self.select_guest_input.ids,
                    self.select_guest_input.loaded.dom(),
                    number as nat,
                ),
            ),
            _ => nothing(),
        }
    }

    /// The screen after any message, and what the message asks for. Tab and
    /// Shift-Tab move the focus; messages of other screens do nothing.
    pub open spec fn step(self, message: AppMessage, global: GlobalStateView) -> (
        BookRoomScreenView,
        Seq<ActionView>,
    ) {
        match message {
            AppMessage::BookRoomMessage(m) => (self.after(m), self.asks(m, global.token_text())),
            AppMessage::SelectNext => (
                BookRoomScreenView { focus_chain: self.focus_chain.advance(), ..self },
                focus_actions(self.focus_chain.advance().current()),
            ),
            AppMessage::SelectPrev => (
                BookRoomScreenView { focus_chain: self.focus_chain.retreat(), ..self },
                focus_actions(self.focus_chain.retreat().current()),
            ),
            _ => (self, nothing()),
        }
    }
}

/// Taking the guests with one id out of a list without repeated ids leaves
/// a list without repeated ids, made of guests of the old list, none of
/// whom has that id.
pub proof fn lemma_removal_keeps_distinct(guests: Seq<GuestView>, id: u128)
    requires
        distinct_guests(guests),
    ensures
        distinct_guests(guests.filter(is_other_guest(id))),
        forall|k: int|
            0 <= k < guests.filter(is_other_guest(id)).len() ==> {
                &&& (#[trigger] guests.filter(is_other_guest(id))[k]).id != id
                &&& exists|m: int|
                    0 <= m < guests.len() && guests[m] == guests.filter(is_other_guest(id))[k]
            },
    decreases guests.len(),
{
    reveal(Seq::filter);
    let test = is_other_guest(id);
    if guests.len() > 0 {
        let rest = guests.drop_last();
        let kept = rest.filter(test);
        assert forall|i: int, j: int| 0 <= i < j < rest.len() implies rest[i].id != rest[j].id by {
            assert(rest[i] == guests[i] && rest[j] == guests[j]);
        }
        lemma_removal_keeps_distinct(rest, id);
        let all = guests.filter(test);
        assert forall|k: int| 0 <= k < all.len() implies {
            &&& (#[trigger] all[k]).id != id
            &&& exists|m: int| 0 <= m < guests.len() && guests[m] == all[k]
        } by {
            if k < kept.len() {
                assert(all[k] == kept[k]);
                let m = choose|m: int| 0 <= m < rest.len() && rest[m] == kept[k];
                assert(guests[m] == all[k]);
            } else {
                assert(guests[guests.len() - 1] == all[k]);
            }
        }
        assert forall|i: int, j: int| 0 <= i < j < all.len() implies all[i].id != all[j].id by {
            if j < kept.len() {
                assert(all[i] == kept[i] && all[j] == kept[j]);
            } else {
                assert(all[i] == kept[i]);
                let m = choose|m: int| 0 <= m < rest.len() && rest[m] == kept[i];
                assert(guests[m] == all[i]);
                assert(all[j] == guests[guests.len() - 1]);
            }
        }
    }
}

/// A booking without repeated ids stays so when a guest is asked to join
/// it, as long as every guest fetched stands under their own id.
pub proof fn lemma_add_guest_keeps_distinct(screen: BookRoomScreenView, id: u128)
    requires
        distinct_guests(screen.selected_guests),
        screen.select_guest_input.keyed(),
    ensures
        distinct_guests(screen.add_guest_to_booking(id).selected_guests),
{
    if !has_guest(screen.selected_guests, id) && screen.select_guest_input.loaded.contains_key(id) {
        let guest = screen.select_guest_input.loaded[id];
        let after = screen.selected_guests.push(guest);
        assert forall|i: int, j: int| 0 <= i < j < after.len() implies after[i].id
            != after[j].id by {
            assert(after[i] == screen.selected_guests[i]);
            if j < screen.selected_guests.len() {
                assert(after[j] == screen.selected_guests[j]);
            }
        }
    }
}

/// The screen starts well formed and every step keeps it so.
pub proof fn lemma_step_keeps_wf(
    screen: BookRoomScreenView,
    message: AppMessage,
    global: GlobalStateView,
    today: Date,
)
    ensures
        BookRoomScreenView::initial(today).wf(),
        screen.wf() ==> screen.step(message, global).0.wf(),
{
    if screen.wf() {
        match message {
            AppMessage::BookRoomMessage(BookRoomMessage::AddGuest(id)) => {
                lemma_add_guest_keeps_distinct(screen, id);
            },
            AppMessage::BookRoomMessage(BookRoomMessage::RemoveAddedGuest(id)) => {
                lemma_removal_keeps_distinct(screen.selected_guests, id);
            },
            _ => {},
        }
    }
}

impl View for BookRoomScreen {
    type V = BookRoomScreenView;

    closed spec fn view(&self) -> BookRoomScreenView {
        BookRoomScreenView {
            current_step: self.current_step,
            focus_chain: self.focus_chain@,
            minimum_capacity_input: self.minimum_capacity_input@,
            maximum_capacity_input: self.maximum_capacity_input@,
            start_date_input: self.start_date_input@,
            end_date_input: self.end_date_input@,
            select_room_input: self.select_room_input@,
            select_guest_input: self.select_guest_input@,
            selected_guests: guests_view(self.selected_guests@),
            main_guest_id: self.main_guest_id,
            first_name_input: self.first_name_input@,
            last_name_input: self.last_name_input@,
            ucn_input: self.ucn_input@,
            phone_number_input: self.phone_number_input@,
            date_of_birth_input: self.date_of_birth_input@,
            search_by_date_of_birth_checkbox: self.search_by_date_of_birth_checkbox@,
            error: self.error@,
        }
    }
}

/// The message for the outcome of a search for free rooms.
pub fn map_find_rooms_result(result: Result<FindUnoccupiedRoomsResult, String>) -> (r: AppMessage)
    ensures
        match result {
            Ok(FindUnoccupiedRoomsResult::Found(ids)) => r == AppMessage::BookRoomMessage(
                BookRoomMessage::FoundFreeRooms(ids),
            ),
            Ok(FindUnoccupiedRoomsResult::Forbidden) => r == AppMessage::TokenExpired,
            Ok(FindUnoccupiedRoomsResult::BadRequest(err)) => r == AppMessage::BookRoomMessage(
                BookRoomMessage::SetError(err),
            ),
            Err(_) => r.shows("Unexpected Error"@, NotificationType::Error),
        },
{
    match result {
        Ok(FindUnoccupiedRoomsResult::Found(ids)) => AppMessage::BookRoomMessage(
            BookRoomMessage::FoundFreeRooms(ids),
        ),
        Ok(FindUnoccupiedRoomsResult::Forbidden) => AppMessage::TokenExpired,
        Ok(FindUnoccupiedRoomsResult::BadRequest(err)) => AppMessage::BookRoomMessage(
            BookRoomMessage::SetError(err),
        ),
        Err(_) => show_notification("Unexpected Error".to_owned(), NotificationType::Error),
    }
}

/// The message for the outcome of a search for guests.
pub fn map_find_guests_result(result: Result<FindGuestResult, String>) -> (r: AppMessage)
    ensures
        match result {
            Ok(FindGuestResult::Found(ids)) => r == AppMessage::BookRoomMessage(
                BookRoomMessage::FoundGuests(ids),
            ),
            Ok(FindGuestResult::Forbidden) => r == AppMessage::TokenExpired,
            Ok(FindGuestResult::BadRequest(err)) => r == AppMessage::BookRoomMessage(
                BookRoomMessage::SetError(err),
            ),
            Err(_) => r.shows("Unexpected error"@, NotificationType::Error),
        },
{
    match result {
        Ok(FindGuestResult::Found(ids)) => AppMessage::BookRoomMessage(
            BookRoomMessage::FoundGuests(ids),
        ),
        Ok(FindGuestResult::Forbidden) => AppMessage::TokenExpired,
        Ok(FindGuestResult::BadRequest(err)) => AppMessage::BookRoomMessage(
            BookRoomMessage::SetError(err),
        ),
        Err(_) => show_notification("Unexpected error".to_owned(), NotificationType::Error),
    }
}

impl BookRoomScreen {
    /// The screen as it is first shown on the day `today`.
    pub fn new(today: Date) -> (r: Self)
        ensures
            r@ == BookRoomScreenView::initial(today),
            r@.wf(),
    {
        let r = Self {
            current_step: BookRoomStep::DateAndRoom,
            error: String::new(),
            minimum_capacity_input: NumberTextBox::new(
                "",
                CAPACITY_MAX_LENGTH,
                NumberType::PositiveInteger,
            ),
            maximum_capacity_input: NumberTextBox::new(
                "",
                CAPACITY_MAX_LENGTH,
                NumberType::PositiveInteger,
            ),
            start_date_input: DateInput::new("Start", today),
            end_date_input: DateInput::new("End", today),
            focus_chain: BookRoomStep::DateAndRoom.get_focus_chain(),
            select_room_input: RoomListInput::new(),
            select_guest_input: GuestListInput::new(),
            selected_guests: Vec::new(),
            first_name_input: TextBox::new("", NAME_MAX_LENGTH),
            last_name_input: TextBox::new("", NAME_MAX_LENGTH),
            ucn_input: UcnTextBox::new(""),
            phone_number_input: PhoneNumberTextBox::new(""),
            date_of_birth_input: DateInput::new("Date of birth", today),
            search_by_date_of_birth_checkbox: Checkbox::new("Search by date of birth", false),
            main_guest_id: None,
        };
        proof {
            reveal_strlit("");
            assert(""@ =~= Seq::<char>::empty());
            assert(guests_view(r.selected_guests@) =~= Seq::<GuestView>::empty());
        }
        r
    }

    /// The bound that a text gives.
    pub fn get_optional_number(number_str: &str) -> (r: Option<i16>)
        ensures
            r == optional_number(number_str@),
    {
        if number_str.is_empty() {
            return None;
        }
        parse_i16(number_str)
    }

    fn find_free_rooms(&self, global_state: &GlobalState) -> (actions: Vec<Action>)
        ensures
            actions_view(actions@) == self@.asks(
                BookRoomMessage::FindFreeRooms,
                global_state@.token_text(),
            ),
    {
        let input = FindUnoccupiedRoomsInput {
            start_date: self.start_date_input.get_date(),
            end_date: self.end_date_input.get_date(),
            minimum_capacity: Self::get_optional_number(self.minimum_capacity_input.get_text()),
            maximum_capacity: Self::get_optional_number(self.maximum_capacity_input.get_text()),
        };
        one_action(Action::FindFreeRooms { token: global_state.token_string(), input })
    }

    /// The message for a room that was asked for.
    pub fn map_get_room_result(result: Result<GetRoomResult, String>) -> (r: AppMessage)
        ensures
            match result {
                Ok(GetRoomResult::Found(room)) => r == AppMessage::BookRoomMessage(
                    BookRoomMessage::RoomLoaded(Box::new(room)),
                ),
                Ok(GetRoomResult::Forbidden) => r == AppMessage::TokenExpired,
                Ok(GetRoomResult::BadRequest(err)) => r == AppMessage::BookRoomMessage(
                    BookRoomMessage::SetError(err),
                ),
                Err(_) => r.shows("Unexpected_message"@, NotificationType::Error),
            },
    {
        match result {
            Ok(GetRoomResult::Found(room)) => AppMessage::BookRoomMessage(
                BookRoomMessage::RoomLoaded(Box::new(room)),
            ),
            Ok(GetRoomResult::Forbidden) => AppMessage::TokenExpired,
            Ok(GetRoomResult::BadRequest(err)) => AppMessage::BookRoomMessage(
                BookRoomMessage::SetError(err),
            ),
            Err(_) => show_notification("Unexpected_message".to_owned(), NotificationType::Error),
        }
    }

    /// The message for a guest who was asked for.
    pub fn map_get_guest_result(result: Result<GetGuestResult, String>) -> (r: AppMessage)
        ensures
            match result {
                Ok(GetGuestResult::Found(guest)) => r == AppMessage::BookRoomMessage(
                    BookRoomMessage::GuestLoaded(guest),
                ),
                Ok(GetGuestResult::Forbidden) => r == AppMessage::TokenExpired,
                Ok(GetGuestResult::BadRequest(err)) => r == AppMessage::BookRoomMessage(
                    BookRoomMessage::SetError(err),
                ),
                Err(_) => r.shows("Unexpected_message"@, NotificationType::Error),
            },
    {
        match result {
            Ok(GetGuestResult::Found(guest)) => AppMessage::BookRoomMessage(
                BookRoomMessage::GuestLoaded(guest),
            ),
            Ok(GetGuestResult::Forbidden) => AppMessage::TokenExpired,
            Ok(GetGuestResult::BadRequest(err)) => AppMessage::BookRoomMessage(
                BookRoomMessage::SetError(err),
            ),
            Err(_) => show_notification("Unexpected_message".to_owned(), NotificationType::Error),
        }
    }

    /// The text of a field, unless the field is empty.
    pub fn get_text_if_not_empty<T: TextElement>(input: &T) -> (r: Option<String>)
        ensures
            opt_text(r) == text_if_not_empty(input.text()),
    {
        if input.get_text().is_empty() {
            None
        } else {
            Some(input.get_text().to_owned())
        }
    }

    fn get_find_guests_input(&self) -> (r: FindGuestInput)
        ensures
            r@ == self@.find_guests_input(),
    {
        let first_name = Self::get_text_if_not_empty(&self.first_name_input);
        let last_name = Self::get_text_if_not_empty(&self.last_name_input);
        let phone_number = Self::get_text_if_not_empty(&self.phone_number_input);
        let ucn = Self::get_text_if_not_empty(&self.ucn_input);
        let date_of_birth = if self.search_by_date_of_birth_checkbox.is_checked() {
            Some(self.date_of_birth_input.get_date().to_text())
        } else {
            None
        };
        FindGuestInput { first_name, last_name, date_of_birth, ucn, phone_number }
    }

    fn find_guests(&mut self, global_state: &GlobalState) -> (actions: Vec<Action>)
        ensures
            final(self)@ == old(self)@.after(BookRoomMessage::FindGuests),
            actions_view(actions@) == old(self)@.asks(
                BookRoomMessage::FindGuests,
                global_state@.token_text(),
            ),
    {
        self.error = String::new();
        let input = self.get_find_guests_input();
        one_action(Action::FindGuests { token: global_state.token_string(), input })
    }

    fn add_guest_to_booking(&mut self, guest_id: u128)
        ensures
            final(self)@ == old(self)@.add_guest_to_booking(guest_id),
    {
        let mut is_added: bool = false;
        let mut i: usize = 0;
        while i < self.selected_guests.len()
            invariant
                i <= self.selected_guests@.len(),
                *self == *old(self),
                is_added == exists|j: int|
                    0 <= j < i && (#[trigger] guests_view(self.selected_guests@)[j]).id == guest_id,
            decreases self.selected_guests@.len() - i,
        {
            if self.selected_guests[i].id == guest_id {
                assert(guests_view(self.selected_guests@)[i as int].id == guest_id);
                is_added = true;
            }
            i = i + 1;
        }
        if !is_added {
            match self.select_guest_input.get_loaded(guest_id) {
                Some(guest) => {
                    let ghost before = self.selected_guests@;
                    self.selected_guests.push(guest);
                    assert(guests_view(self.selected_guests@) =~= guests_view(before).push(guest@));
                },
                None => {},
            }
        }
    }

    fn remove_added_guest(&mut self, guest_id: u128)
        ensures
            final(self)@ == old(self)@.remove_added_guest(guest_id),
    {
        if self.main_guest_id == Some(guest_id) {
            self.main_guest_id = None;
        }
        let ghost test = is_other_guest(guest_id);
        let ghost all = guests_view(self.selected_guests@);
        let mut kept: Vec<Guest> = Vec::new();
        let mut i: usize = 0;
        while i < self.selected_guests.len()
            invariant
                i <= self.selected_guests@.len(),
                self.selected_guests == old(self).selected_guests,
                all == guests_view(self.selected_guests@),
                test == is_other_guest(guest_id),
                guests_view(kept@) == all.take(i as int).filter(test),
            decreases self.selected_guests@.len() - i,
        {
            proof {
                assert(all.take(i + 1) =~= all.take(i as int).push(all[i as int]));
                all.take(i as int).lemma_filter_push(all[i as int], test);
            }
            if self.selected_guests[i].id != guest_id {
                let guest = self.selected_guests[i].clone();
                kept.push(guest);
            }
            i = i + 1;
        }
        assert(all.take(i as int) =~= all);
        self.selected_guests = kept;
    }

    /// Takes a message and says what it asks for. `global_state` is read
    /// for the session's token.
    pub fn update(&mut self, message: AppMessage, global_state: &GlobalState) -> (actions: Vec<
        Action,
    >)
        ensures
            final(self)@ == old(self)@.step(message, global_state@).0,
            actions_view(actions@) == old(self)@.step(message, global_state@).1,
            old(self)@.wf() ==> final(self)@.wf(),
    {
        proof {
            lemma_step_keeps_wf(old(self)@, message, global_state@, Date::fallback());
        }
        match message {
            AppMessage::BookRoomMessage(m) => match m {
                BookRoomMessage::SetError(err) => {
                    self.error = err;
                    no_actions()
                },
                BookRoomMessage::SetStep(book_room_step) => {
                    self.current_step = book_room_step;
                    self.focus_chain = book_room_step.get_focus_chain();
                    no_actions()
                },
                BookRoomMessage::ChangeMinimumCapacity(min_capacity) => {
                    self.focus_chain.set_focus(Some(MIN_CAPACITY_ID));
                    self.minimum_capacity_input.update(min_capacity);
                    no_actions()
                },
                BookRoomMessage::ChangeMaximumCapacity(max_capacity) => {
                    self.focus_chain.set_focus(Some(MAX_CAPACITY_ID));
                    self.maximum_capacity_input.update(max_capacity);
                    no_actions()
                },
                BookRoomMessage::ChangeStartDate(date) => {
                    self.start_date_input.update_date(date);
                    self.start_date_input.toggle_show();
                    no_actions()
                },
                BookRoomMessage::ToggleShowStartDate => {
                    self.start_date_input.toggle_show();
                    no_actions()
                },
                BookRoomMessage::ChangeEndDate(date) => {
                    self.end_date_input.update_date(date);
                    self.end_date_input.toggle_show();
                    no_actions()
                },
                BookRoomMessage::ToggleShowEndDate => {
                    self.end_date_input.toggle_show();
                    no_actions()
                },
                BookRoomMessage::FindFreeRooms => self.find_free_rooms(global_state),
                BookRoomMessage::FoundFreeRooms(ids) => {
                    self.error = String::new();
                    let load = self.select_room_input.update_ids(global_state.token_string(), ids);
                    load_rooms(load)
                },
                BookRoomMessage::RoomLoaded(room) => {
                    self.select_room_input.update_loaded(*room);
                    no_actions()
                },
                BookRoomMessage::ScrollRooms(amount) => {
                    let load = self.select_room_input.load_scrolled(
                        global_state.token_string(),
                        amount,
                    );
                    load_rooms(load)
                },
                BookRoomMessage::SelectRoom(uuid) => {
                    self.select_room_input.set_selected(Some(uuid));
                    no_actions()
                },
                BookRoomMessage::ChangeFirstName(first_name) => {
                    self.focus_chain.set_focus(Some(FIRST_NAME_ID));
                    self.first_name_input.update(first_name);
                    no_actions()
                },
                BookRoomMessage::ChangeLastName(last_name) => {
                    self.focus_chain.set_focus(Some(LAST_NAME_ID));
                    self.last_name_input.update(last_name);
                    no_actions()
                },
                BookRoomMessage::ChangeUCN(ucn) => {
                    self.focus_chain.set_focus(Some(UCN_ID));
                    self.ucn_input.update(ucn);
                    no_actions()
                },
                BookRoomMessage::ChangeDateOfBirth(date) => {
                    self.date_of_birth_input.toggle_show();
                    self.date_of_birth_input.update_date(date);
                    no_actions()
                },
                BookRoomMessage::ToggleShowDateOfBirth => {
                    self.date_of_birth_input.toggle_show();
                    no_actions()
                },
                BookRoomMessage::ChangePhoneNumber(phone_number) => {
                    self.focus_chain.set_focus(Some(PHONE_NUMBER_ID));
                    self.phone_number_input.update(phone_number);
                    no_actions()
                },
                BookRoomMessage::FindGuests => self.find_guests(global_state),
                BookRoomMessage::ChangeSearchByDateOfBirth(should_search) => {
                    self.search_by_date_of_birth_checkbox.update(should_search);
                    no_actions()
                },
                BookRoomMessage::FoundGuests(uuids) => {
                    let load = self.select_guest_input.update_ids(
                        global_state.token_string(),
                        uuids,
                    );
                    load_guests(load)
                },
                BookRoomMessage::GuestLoaded(guest) => {
                    self.select_guest_input.update_loaded(*guest);
                    no_actions()
                },
                BookRoomMessage::ScrollGuests(scroll_amount) => {
                    let load = self.select_guest_input.load_scrolled(
                        global_state.token_string(),
                        scroll_amount,
                    );
                    load_guests(load)
                },
                BookRoomMessage::AddGuest(uuid) => {
                    self.add_guest_to_booking(uuid);
                    no_actions()
                },
                BookRoomMessage::SetSelectedMainGuest(uuid) => {
                    self.main_guest_id = Some(uuid);
                    no_actions()
                },
                BookRoomMessage::RemoveAddedGuest(uuid) => {
                    self.remove_added_guest(uuid);
                    no_actions()
                },
            },
            AppMessage::SelectNext => {
                self.focus_chain.set_next();
                focus_on(self.focus_chain.apply_focus())
            },
            AppMessage::SelectPrev => {
                self.focus_chain.set_prev();
                focus_on(self.focus_chain.apply_focus())
            },
            _ => no_actions(),
        }
    }

    /// The step that is shown.
    pub fn current_step(&self) -> (r: BookRoomStep)
        ensures
            r == self@.current_step,
    {
        self.current_step
    }

    /// The complaint shown on the screen.
    pub fn error(&self) -> (r: &str)
        ensures
            r@ == self@.error,
    {
        self.error.as_str()
    }

    /// The guests in the booking, in the order in which they joined it.
    pub fn selected_guests(&self) -> (r: &Vec<Guest>)
        ensures
            guests_view(r@) == self@.selected_guests,
    {
        &self.selected_guests
    }

    /// The guest the booking is made for.
    pub fn main_guest_id(&self) -> (r: Option<u128>)
        ensures
            r == self@.main_guest_id,
    {
        self.main_guest_id
    }

    pub fn focus_chain(&self) -> (r: &FocusChain)
        ensures
            r@ == self@.focus_chain,
    {
        &self.focus_chain
    }

    pub fn minimum_capacity_input(&self) -> (r: &NumberTextBox)
        ensures
            r@ == self@.minimum_capacity_input,
    {
        &self.minimum_capacity_input
    }

    pub fn maximum_capacity_input(&self) -> (r: &NumberTextBox)
        ensures
            r@ == self@.maximum_capacity_input,
    {
        &self.maximum_capacity_input
    }

    pub fn start_date_input(&self) -> (r: &DateInput)
        ensures
            r@ == self@.start_date_input,
    {
        &self.start_date_input
    }

    pub fn end_date_input(&self) -> (r: &DateInput)
        ensures
            r@ == self@.end_date_input,
    {
        &self.end_date_input
    }

    pub fn select_room_input(&self) -> (r: &RoomListInput)
        ensures
            r@ == self@.select_room_input,
    {
        &self.select_room_input
    }

    pub fn select_guest_input(&self) -> (r: &GuestListInput)
        ensures
            r@ == self@.select_guest_input,
    {
        &self.select_guest_input
    }

    pub fn first_name_input(&self) -> (r: &TextBox)
        ensures
            r@ == self@.first_name_input,
    {
        &self.first_name_input
    }

    pub fn last_name_input(&self) -> (r: &TextBox)
        ensures
            r@ == self@.last_name_input,
    {
        &self.last_name_input
    }

    pub fn ucn_input(&self) -> (r: &UcnTextBox)
        ensures
            r@ == self@.ucn_input,
    {
        &self.ucn_input
    }

    pub fn phone_number_input(&self) -> (r: &PhoneNumberTextBox)
        ensures
            r@ == self@.phone_number_input,
    {
        &self.phone_number_input
    }

    pub fn date_of_birth_input(&self) -> (r: &DateInput)
        ensures
            r@ == self@.date_of_birth_input,
    {
        &self.date_of_birth_input
    }

    pub fn search_by_date_of_birth_checkbox(&self) -> (r: &Checkbox)
        ensures
            r@ == self@.search_by_date_of_birth_checkbox,
    {
        &self.search_by_date_of_birth_checkbox
    }
}

} // verus!
