//! What a step of the application asks its surroundings to do.

use vstd::prelude::*;
use crate::app::ScreenType;
use crate::components::list_input::{ListLoad, ListLoadView};
use crate::components::notification::NotificationType;
use crate::services::add_guest::{AddGuestInput, AddGuestInputView};
use crate::services::add_room::{AddRoomInput, AddRoomInputView};
use crate::services::find_guest::{FindGuestInput, FindGuestInputView};
use crate::services::find_unoccupied_rooms::FindUnoccupiedRoomsInput;
use crate::services::register::{RegisterInput, RegisterInputView};
use crate::services::reset_password::{ResetPasswordInput, ResetPasswordInputView};
use crate::text::opt_text;

verus! {

/// One thing to do after a step. The actions of a step are carried out in
/// the order given; a call to the server ends with its result handed to the
/// function that makes a message of it.
#[derive(Debug)]
#[allow(inconsistent_fields)]
pub enum Action {
    /// Put the keyboard focus on the field with this id.
    Focus(&'static str),
    /// Deliver the message that shows this notification.
    Notify { message: String, notification_type: NotificationType },
    /// Deliver the message that switches to this screen.
    NavigateTo(ScreenType),
    /// Deliver the message that the session has expired.
    TokenExpired,
    /// Deliver the message that shows this complaint on the room form.
    ShowAddRoomError(String),
    /// Wait this many seconds, then deliver the message that clears the
    /// notification.
    ClearNotificationAfter(u64),
    Login { email: String, password: String },
    Logout { token: Option<String> },
    RefreshToken { token: String },
    /// Send a code to the address given on the login screen.
    SendOtp { email: String },
    /// Send another code, asked for on the screen that resets the password.
    ResendOtp { email: String },
    Register(RegisterInput),
    ResetPassword(ResetPasswordInput),
    AddRoom { token: Option<String>, input: AddRoomInput },
    AddGuest { token: Option<String>, input: AddGuestInput },
    FindFreeRooms { token: Option<String>, input: FindUnoccupiedRoomsInput },
    FindGuests { token: Option<String>, input: FindGuestInput },
    GetRoom { token: String, id: u128 },
    GetGuest { token: String, id: u128 },
}

#[allow(inconsistent_fields)]
pub enum ActionView {
    Focus(Seq<char>),
    Notify { message: Seq<char>, notification_type: NotificationType },
    NavigateTo(ScreenType),
    TokenExpired,
    ShowAddRoomError(Seq<char>),
    ClearNotificationAfter(u64),
    Login { email: Seq<char>, password: Seq<char> },
    Logout { token: Option<Seq<char>> },
    RefreshToken { token: Seq<char> },
    SendOtp { email: Seq<char> },
    ResendOtp { email: Seq<char> },
    Register(RegisterInputView),
    ResetPassword(ResetPasswordInputView),
    AddRoom { token: Option<Seq<char>>, input: AddRoomInputView },
    AddGuest { token: Option<Seq<char>>, input: AddGuestInputView },
    FindFreeRooms { token: Option<Seq<char>>, input: FindUnoccupiedRoomsInput },
    FindGuests { token: Option<Seq<char>>, input: FindGuestInputView },
    GetRoom { token: Seq<char>, id: u128 },
    GetGuest { token: Seq<char>, id: u128 },
}

impl View for Action {
    type V = ActionView;

    open spec fn view(&self) -> ActionView {
        match self {
            Action::Focus(id) => ActionView::Focus(id@),
            Action::Notify { message, notification_type } => ActionView::Notify {
                message: message@,
                notification_type: *notification_type,
            },
            Action::NavigateTo(screen) => ActionView::NavigateTo(*screen),
            Action::TokenExpired => ActionView::TokenExpired,
            Action::ShowAddRoomError(message) => ActionView::ShowAddRoomError(message@),
            Action::ClearNotificationAfter(seconds) => ActionView::ClearNotificationAfter(*seconds),
            Action::Login { email, password } => ActionView::Login {
                email: email@,
                password: password@,
            },
            Action::Logout { token } => ActionView::Logout { token: opt_text(*token) },
            Action::RefreshToken { token } => ActionView::RefreshToken { token: token@ },
            Action::SendOtp { email } => ActionView::SendOtp { email: email@ },
            Action::ResendOtp { email } => ActionView::ResendOtp { email: email@ },
            Action::Register(input) => ActionView::Register(input@),
            Action::ResetPassword(input) => ActionView::ResetPassword(input@),
            Action::AddRoom { token, input } => ActionView::AddRoom {
                token: opt_text(*token),
                input: input@,
            },
            Action::AddGuest { token, input } => ActionView::AddGuest {
                token: opt_text(*token),
                input: input@,
            },
            Action::FindFreeRooms { token, input } => ActionView::FindFreeRooms {
                token: opt_text(*token),
                input: *input,
            },
            Action::FindGuests { token, input } => ActionView::FindGuests {
                token: opt_text(*token),
                input: input@,
            },
            Action::GetRoom { token, id } => ActionView::GetRoom { token: token@, id: *id },
            Action::GetGuest { token, id } => ActionView::GetGuest { token: token@, id: *id },
        }
    }
}

/// The actions of a step as values.
pub open spec fn actions_view(actions: Seq<Action>) -> Seq<ActionView> {
    Seq::new(actions.len(), |i: int| actions[i]@)
}

/// No action.
pub open spec fn nothing() -> Seq<ActionView> {
    Seq::empty()
}

/// The action that moves the keyboard focus, where there is a field to move
/// it to.
pub open spec fn focus_actions(field: Option<Seq<char>>) -> Seq<ActionView> {
    match field {
        Some(id) => seq![ActionView::Focus(id)],
        None => Seq::empty(),
    }
}

/// One fetch for each row, with the same token.
pub open spec fn fetch_rooms(token: Seq<char>, ids: Seq<u128>) -> Seq<ActionView> {
    Seq::new(ids.len(), |i: int| ActionView::GetRoom { token, id: ids[i] })
}

/// One fetch for each row, with the same token.
pub open spec fn fetch_guests(token: Seq<char>, ids: Seq<u128>) -> Seq<ActionView> {
    Seq::new(ids.len(), |i: int| ActionView::GetGuest { token, id: ids[i] })
}

/// What a list of rooms asks for, as actions: the end of the session where
/// there is none, else the fetches.
pub open spec fn room_load_actions(load: ListLoadView) -> Seq<ActionView> {
    match load {
        ListLoadView::SessionMissing => seq![ActionView::TokenExpired],
        ListLoadView::Fetch { token, ids } => fetch_rooms(token, ids),
    }
}

/// What a list of guests asks for, as actions.
pub open spec fn guest_load_actions(load: ListLoadView) -> Seq<ActionView> {
    match load {
        ListLoadView::SessionMissing => seq![ActionView::TokenExpired],
        ListLoadView::Fetch { token, ids } => fetch_guests(token, ids),
    }
}

/// How the actions of a step are run.
#[derive(Debug, Clone, Copy, PartialEq, Eq, Structural)]
pub enum Schedule {
    /// All at once, side by side.
    Together,
    /// One after the other, in the order given.
    InOrder,
}

/// Whether an action fetches one row of a list.
pub open spec fn is_fetch(action: ActionView) -> bool {
    action is GetRoom || action is GetGuest
}

/// How a list of actions is run: fetches of rows, and nothing but them, run
/// side by side, since their answers may come in any order; every other
/// list runs in order.
pub open spec fn schedule_of(actions: Seq<ActionView>) -> Schedule {
    if actions.len() > 0 && forall|i: int| 0 <= i < actions.len() ==> is_fetch(#[trigger] actions[i]) {
        Schedule::Together
    } else {
        Schedule::InOrder
    }
}

/// Says how the actions of a step are to be run.
pub fn schedule(actions: &Vec<Action>) -> (r: Schedule)
    ensures
        r == schedule_of(actions_view(actions@)),
{
    if actions.len() == 0 {
        return Schedule::InOrder;
    }
    let mut i: usize = 0;
    while i < actions.len()
        invariant
            i <= actions@.len(),
            forall|j: int| 0 <= j < i ==> is_fetch(#[trigger] actions_view(actions@)[j]),
        decreases actions@.len() - i,
    {
        match &actions[i] {
            Action::GetRoom { .. } => {},
            Action::GetGuest { .. } => {},
            _ => {
                assert(!is_fetch(actions_view(actions@)[i as int]));
                return Schedule::InOrder;
            },
        }
        i = i + 1;
    }
    Schedule::Together
}

/// An empty list of actions.
pub fn no_actions() -> (r: Vec<Action>)
    ensures
        actions_view(r@) == nothing(),
{
    let r: Vec<Action> = Vec::new();
    r
}

/// A list of one action.
pub fn one_action(action: Action) -> (r: Vec<Action>)
    ensures
        actions_view(r@) == seq![action@],
{
    let mut r: Vec<Action> = Vec::new();
    r.push(action);
    r
}

/// A list of two actions.
pub fn two_actions(first: Action, second: Action) -> (r: Vec<Action>)
    ensures
        actions_view(r@) == seq![first@, second@],
{
    let mut r: Vec<Action> = Vec::new();
    r.push(first);
    r.push(second);
    r
}

/// The action that moves the keyboard focus to `field`.
pub fn focus_on(field: Option<&'static str>) -> (r: Vec<Action>)
    ensures
        actions_view(r@) == focus_actions(
            match field {
                Some(id) => Some(id@),
                None => None,
            },
        ),
{
    match field {
        Some(id) => one_action(Action::Focus(id)),
        None => no_actions(),
    }
}

/// The actions that a list of rooms asks for.
pub fn load_rooms(load: ListLoad) -> (r: Vec<Action>)
    ensures
        actions_view(r@) == room_load_actions(load@),
{
    match load {
        ListLoad::SessionMissing => one_action(Action::TokenExpired),
        ListLoad::Fetch { token, ids } => {
            let mut r: Vec<Action> = Vec::new();
            let mut i: usize = 0;
            while i < ids.len()
                invariant
                    i <= ids@.len(),
                    r@.len() == i,
                    forall|j: int|
                        0 <= j < i ==> (#[trigger] r@[j])@ == (ActionView::GetRoom {
                            token: token@,
                            id: ids@[j],
                        }),
                decreases ids@.len() - i,
            {
                r.push(Action::GetRoom { token: token.clone(), id: ids[i] });
                i = i + 1;
            }
            r
        },
    }
}

/// The actions that a list of guests asks for.
pub fn load_guests(load: ListLoad) -> (r: Vec<Action>)
    ensures
        actions_view(r@) == guest_load_actions(load@),
{
    match load {
        ListLoad::SessionMissing => one_action(Action::TokenExpired),
        ListLoad::Fetch { token, ids } => {
            let mut r: Vec<Action> = Vec::new();
            let mut i: usize = 0;
            while i < ids.len()
                invariant
                    i <= ids@.len(),
                    r@.len() == i,
                    forall|j: int|
                        0 <= j < i ==> (#[trigger] r@[j])@ == (ActionView::GetGuest {
                            token: token@,
                            id: ids@[j],
                        }),
                decreases ids@.len() - i,
            {
                r.push(Action::GetGuest { token: token.clone(), id: ids[i] });
                i = i + 1;
            }
            r
        },
    }
}

} // verus!
