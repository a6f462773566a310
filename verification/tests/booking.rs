use hotel_client::action::Action;
use hotel_client::app::{AppMessage, GlobalState};
use hotel_client::components::list_input::guest_list_input::GuestListInput;
use hotel_client::components::list_input::{select_rows, ListLoad};
use hotel_client::components::notification::{NotificationMessage, NotificationType};
use hotel_client::components::room_list_input::RoomListInput;
use hotel_client::components::text_box::regex_text_box::RegexTextBox;
use hotel_client::components::text_box::text_box::{TextBox, TextElement};
use hotel_client::date::Date;
use hotel_client::model::bathroom_type::BathroomType;
use hotel_client::model::guest::Guest;
use hotel_client::model::room::Room;
use hotel_client::screens::book_room::{
    map_find_guests_result, map_find_rooms_result, BookRoomMessage, BookRoomScreen, BookRoomStep,
};
use hotel_client::security::{JwtToken, Role};
use hotel_client::services::find_guest::FindGuestResult;
use hotel_client::services::find_unoccupied_rooms::FindUnoccupiedRoomsResult;
use hotel_client::services::get_guest::GetGuestResult;
use hotel_client::services::get_room::GetRoomResult;
use std::collections::HashMap;

const TODAY: Date = Date { year: 2025, month: 6, day: 15 };

fn logged_in() -> GlobalState {
    GlobalState {
        token: Some(JwtToken { token_string: "token".to_owned(), role: Role::User }),
        ..GlobalState::default()
    }
}

fn room(id: u128) -> Room {
    Room {
        id,
        price: 9900,
        floor: 2,
        room_number: format!("{id}"),
        bathroom_type: BathroomType::Private,
        beds: vec![],
    }
}

fn guest(id: u128, first_name: &str) -> Guest {
    Guest {
        id,
        first_name: first_name.to_owned(),
        last_name: "Ivanova".to_owned(),
        date_of_birth: Date::from_ymd(1990, 5, 6),
        id_card: None,
        phone_number: None,
    }
}

fn fetched(load: ListLoad) -> Vec<u128> {
    match load {
        ListLoad::Fetch { token, ids } => {
            assert_eq!(token, "token");
            ids
        }
        ListLoad::SessionMissing => panic!("expected fetches"),
    }
}

fn token() -> Option<String> {
    Some("token".to_owned())
}

fn room_fetches(actions: &[Action]) -> Vec<u128> {
    actions
        .iter()
        .map(|action| match action {
            Action::GetRoom { token, id } => {
                assert_eq!(token, "token");
                *id
            }
            other => panic!("{other:?}"),
        })
        .collect()
}

fn guest_fetches(actions: &[Action]) -> Vec<u128> {
    actions
        .iter()
        .map(|action| match action {
            Action::GetGuest { token, id } => {
                assert_eq!(token, "token");
                *id
            }
            other => panic!("{other:?}"),
        })
        .collect()
}

fn book(screen: &mut BookRoomScreen, message: BookRoomMessage) -> Vec<Action> {
    screen.update(AppMessage::BookRoomMessage(message), &logged_in())
}

#[test]
fn select_rows_takes_the_window_and_skips_what_is_cached() {
    let ids: Vec<u128> = (1..=20).collect();
    let mut cached: HashMap<u128, ()> = HashMap::new();
    assert_eq!(select_rows(&ids, &cached, 0), vec![1, 2, 3, 4, 5]);
    assert_eq!(select_rows(&ids, &cached, 5), (1..=10).collect::<Vec<u128>>());
    assert_eq!(select_rows(&ids, &cached, 15), ids);
    assert_eq!(select_rows(&ids, &cached, 16), ids);
    assert_eq!(select_rows(&ids, &cached, usize::MAX), ids);
    cached.insert(2, ());
    cached.insert(4, ());
    cached.insert(11, ());
    assert_eq!(select_rows(&ids, &cached, 5), vec![1, 3, 5, 6, 7, 8, 9, 10]);
    assert!(select_rows(&Vec::new(), &cached, 5).is_empty());
}

#[test]
fn room_list_fetches_all_of_a_short_list() {
    let mut list = RoomListInput::new();
    let ids: Vec<u128> = vec![1, 2, 3, 4, 5, 6, 7];
    assert_eq!(fetched(list.update_ids(token(), ids.clone())), ids);
    assert_eq!(list.ids(), &ids);
    assert_eq!(list.len(), 7);
}

#[test]
fn room_list_fetches_the_first_ten_of_a_long_list() {
    let mut list = RoomListInput::new();
    let ids: Vec<u128> = (100..112).collect();
    assert_eq!(fetched(list.update_ids(token(), ids)), (100..110).collect::<Vec<u128>>());
}

#[test]
fn room_list_does_not_fetch_again_what_it_holds() {
    let mut list = RoomListInput::new();
    fetched(list.update_ids(token(), vec![1, 2, 3, 4, 5, 6, 7]));
    list.update_loaded(room(1));
    assert_eq!(fetched(list.update_ids(token(), vec![1, 8])), vec![8]);
    assert_eq!(list.get_loaded(1).map(|room| room.id), Some(1));
    assert!(list.get_loaded(8).is_none());
}

#[test]
fn room_list_recording_twice_is_recording_once() {
    let mut list = RoomListInput::new();
    fetched(list.update_ids(token(), vec![1, 2]));
    list.update_loaded(room(1));
    list.update_loaded(room(1));
    assert_eq!(fetched(list.load_scrolled(token(), 0)), vec![2]);
    let mut changed = room(1);
    changed.floor = 9;
    list.update_loaded(changed);
    assert_eq!(list.get_loaded(1).map(|room| room.floor), Some(9));
}

#[test]
fn room_list_takes_answers_in_any_order() {
    let mut list = RoomListInput::new();
    fetched(list.update_ids(token(), vec![1, 2, 3]));
    list.update_loaded(room(3));
    list.update_loaded(room(7));
    list.update_loaded(room(1));
    assert_eq!(fetched(list.load_scrolled(token(), 3)), vec![2]);
}

#[test]
fn room_list_loads_further_when_scrolled() {
    let mut list = RoomListInput::new();
    let ids: Vec<u128> = (1..=30).collect();
    for id in fetched(list.update_ids(token(), ids)) {
        list.update_loaded(room(id));
    }
    assert_eq!(fetched(list.load_scrolled(token(), 15)), (11..=20).collect::<Vec<u128>>());
    assert_eq!(fetched(list.load_scrolled(token(), 30)), (11..=30).collect::<Vec<u128>>());
    assert!(fetched(list.load_scrolled(token(), 2)).is_empty());
}

#[test]
fn room_list_without_a_session_fetches_nothing() {
    let mut list = RoomListInput::new();
    assert!(matches!(list.update_ids(None, vec![1, 2]), ListLoad::SessionMissing));
    assert_eq!(list.len(), 2);
    assert!(matches!(list.load_scrolled(None, 1), ListLoad::SessionMissing));
}

#[test]
fn room_list_forgets_the_selection_on_a_new_search() {
    let mut list = RoomListInput::new();
    list.update_ids(token(), vec![1, 2]);
    list.set_selected(Some(2));
    assert_eq!(list.get_selected(), Some(2));
    list.set_selected(Some(1));
    assert_eq!(list.get_selected(), Some(1));
    list.update_ids(token(), vec![1, 2]);
    assert_eq!(list.get_selected(), None);
}

#[test]
fn guest_list_loads_like_the_room_list() {
    let mut list = GuestListInput::new();
    let ids: Vec<u128> = vec![1, 2, 3, 4, 5, 6, 7];
    assert_eq!(fetched(list.update_ids(token(), ids.clone())), ids);
    list.update_loaded(guest(1, "Ana"));
    assert_eq!(fetched(list.update_ids(token(), vec![1, 8])), vec![8]);
    assert_eq!(list.get_loaded(1).map(|guest| guest.first_name), Some("Ana".to_owned()));
    assert!(list.get_loaded(2).is_none());
    assert!(matches!(list.update_ids(None, vec![3]), ListLoad::SessionMissing));
    assert!(matches!(list.load_scrolled(None, 0), ListLoad::SessionMissing));
    assert_eq!(list.ids(), &vec![3]);
    assert_eq!(list.len(), 1);
}

#[test]
fn optional_number_is_none_for_blank_or_bad_text() {
    assert_eq!(BookRoomScreen::get_optional_number(""), None);
    assert_eq!(BookRoomScreen::get_optional_number("4"), Some(4));
    assert_eq!(BookRoomScreen::get_optional_number("04"), Some(4));
    assert_eq!(BookRoomScreen::get_optional_number("x"), None);
    assert_eq!(BookRoomScreen::get_optional_number("99999"), None);
}

#[test]
fn text_if_not_empty_works_on_any_text_field() {
    let mut plain = TextBox::new("", 5);
    assert_eq!(BookRoomScreen::get_text_if_not_empty(&plain), None);
    plain.update("abc".to_owned());
    assert_eq!(BookRoomScreen::get_text_if_not_empty(&plain), Some("abc".to_owned()));
    let pattern = RegexTextBox::new("x", 5, "^x*$");
    assert_eq!(BookRoomScreen::get_text_if_not_empty(&pattern), Some("x".to_owned()));
}

#[test]
fn booking_starts_on_the_first_step() {
    let screen = BookRoomScreen::new(TODAY);
    assert_eq!(screen.current_step(), BookRoomStep::DateAndRoom);
    assert_eq!(screen.start_date_input().get_date(), TODAY);
    assert_eq!(screen.end_date_input().get_date(), TODAY);
    assert_eq!(screen.date_of_birth_input().get_date(), TODAY);
    assert_eq!(screen.start_date_input().caption(), "Start");
    assert_eq!(screen.end_date_input().caption(), "End");
    assert!(!screen.search_by_date_of_birth_checkbox().is_checked());
    assert!(screen.selected_guests().is_empty());
    assert_eq!(screen.main_guest_id(), None);
    assert_eq!(screen.error(), "");
}

#[test]
fn booking_steps_can_be_walked_without_a_room() {
    let mut screen = BookRoomScreen::new(TODAY);
    book(&mut screen, BookRoomMessage::ChangeMinimumCapacity("2".to_owned()));
    assert!(screen.focus_chain().get_selected().is_some());
    assert!(book(&mut screen, BookRoomMessage::SetStep(BookRoomStep::AddGuests)).is_empty());
    assert_eq!(screen.current_step(), BookRoomStep::AddGuests);
    assert_eq!(screen.focus_chain().get_selected(), None);
    book(&mut screen, BookRoomMessage::ChangeLastName("Ivanova".to_owned()));
    assert_eq!(screen.focus_chain().get_selected(), Some("Book Room Last Name"));
    match screen.update(AppMessage::SelectNext, &logged_in()).as_slice() {
        [Action::Focus(id)] => assert_eq!(*id, "Book Room UCN"),
        other => panic!("{other:?}"),
    }
    match screen.update(AppMessage::SelectPrev, &logged_in()).as_slice() {
        [Action::Focus(id)] => assert_eq!(*id, "Book Room Last Name"),
        other => panic!("{other:?}"),
    }
    book(&mut screen, BookRoomMessage::SetStep(BookRoomStep::DateAndRoom));
    assert_eq!(screen.current_step(), BookRoomStep::DateAndRoom);
    assert!(screen.update(AppMessage::SelectNext, &logged_in()).is_empty());
    assert_eq!(screen.minimum_capacity_input().get_text(), "2");
}

#[test]
fn booking_searches_rooms_with_the_bounds_that_are_given() {
    let mut screen = BookRoomScreen::new(TODAY);
    book(&mut screen, BookRoomMessage::ToggleShowStartDate);
    assert!(screen.start_date_input().is_shown());
    book(&mut screen, BookRoomMessage::ChangeStartDate(Date::from_ymd(2025, 7, 1)));
    assert!(!screen.start_date_input().is_shown());
    book(&mut screen, BookRoomMessage::ToggleShowEndDate);
    book(&mut screen, BookRoomMessage::ChangeEndDate(Date::from_ymd(2025, 7, 8)));
    assert!(!screen.end_date_input().is_shown());
    book(&mut screen, BookRoomMessage::ChangeMaximumCapacity("4".to_owned()));
    book(&mut screen, BookRoomMessage::ChangeMaximumCapacity("444".to_owned()));
    book(&mut screen, BookRoomMessage::SetError("stays".to_owned()));
    match book(&mut screen, BookRoomMessage::FindFreeRooms).as_slice() {
        [Action::FindFreeRooms { token, input }] => {
            assert_eq!(token.as_deref(), Some("token"));
            assert_eq!(input.start_date, Date::from_ymd(2025, 7, 1));
            assert_eq!(input.end_date, Date::from_ymd(2025, 7, 8));
            assert_eq!(input.minimum_capacity, None);
            assert_eq!(input.maximum_capacity, Some(4));
        }
        other => panic!("{other:?}"),
    }
    assert_eq!(screen.error(), "stays");
}

#[test]
fn booking_fetches_the_rooms_that_were_found() {
    let mut screen = BookRoomScreen::new(TODAY);
    book(&mut screen, BookRoomMessage::SetError("old".to_owned()));
    let actions = book(&mut screen, BookRoomMessage::FoundFreeRooms((1..=12).collect()));
    assert_eq!(room_fetches(&actions), (1..=10).collect::<Vec<u128>>());
    assert_eq!(screen.error(), "");
    for id in 1..=10 {
        assert!(book(&mut screen, BookRoomMessage::RoomLoaded(Box::new(room(id)))).is_empty());
    }
    assert!(book(&mut screen, BookRoomMessage::ScrollRooms(0)).is_empty());
    let actions = book(&mut screen, BookRoomMessage::ScrollRooms(6));
    assert_eq!(room_fetches(&actions), vec![11]);
    let actions = book(&mut screen, BookRoomMessage::ScrollRooms(12));
    assert_eq!(room_fetches(&actions), vec![11, 12]);
    book(&mut screen, BookRoomMessage::SelectRoom(3));
    assert_eq!(screen.select_room_input().get_selected(), Some(3));
    book(&mut screen, BookRoomMessage::SelectRoom(4));
    assert_eq!(screen.select_room_input().get_selected(), Some(4));
}

#[test]
fn booking_without_a_session_reports_it_instead_of_fetching() {
    let mut screen = BookRoomScreen::new(TODAY);
    let logged_out = GlobalState::default();
    let rooms = AppMessage::BookRoomMessage(BookRoomMessage::FoundFreeRooms(vec![1, 2]));
    assert!(matches!(screen.update(rooms, &logged_out).as_slice(), [Action::TokenExpired]));
    let guests = AppMessage::BookRoomMessage(BookRoomMessage::FoundGuests(vec![1, 2]));
    assert!(matches!(screen.update(guests, &logged_out).as_slice(), [Action::TokenExpired]));
    let scroll = AppMessage::BookRoomMessage(BookRoomMessage::ScrollRooms(1));
    assert!(matches!(screen.update(scroll, &logged_out).as_slice(), [Action::TokenExpired]));
    let scroll = AppMessage::BookRoomMessage(BookRoomMessage::ScrollGuests(1));
    assert!(matches!(screen.update(scroll, &logged_out).as_slice(), [Action::TokenExpired]));
    let find = AppMessage::BookRoomMessage(BookRoomMessage::FindFreeRooms);
    match screen.update(find, &logged_out).as_slice() {
        [Action::FindFreeRooms { token, .. }] => assert!(token.is_none()),
        other => panic!("{other:?}"),
    }
}

#[test]
fn booking_searches_guests_by_the_fields_that_are_filled() {
    let mut screen = BookRoomScreen::new(TODAY);
    book(&mut screen, BookRoomMessage::SetStep(BookRoomStep::AddGuests));
    book(&mut screen, BookRoomMessage::ChangeFirstName("Ana".to_owned()));
    book(&mut screen, BookRoomMessage::ChangeUCN("0123456789".to_owned()));
    book(&mut screen, BookRoomMessage::ChangePhoneNumber("+359888".to_owned()));
    book(&mut screen, BookRoomMessage::ChangeDateOfBirth(Date::from_ymd(1990, 5, 6)));
    assert!(screen.date_of_birth_input().is_shown());
    book(&mut screen, BookRoomMessage::ToggleShowDateOfBirth);
    assert!(!screen.date_of_birth_input().is_shown());
    book(&mut screen, BookRoomMessage::SetError("old".to_owned()));
    match book(&mut screen, BookRoomMessage::FindGuests).as_slice() {
        [Action::FindGuests { token, input }] => {
            assert_eq!(token.as_deref(), Some("token"));
            assert_eq!(input.first_name.as_deref(), Some("Ana"));
            assert_eq!(input.last_name, None);
            assert_eq!(input.ucn.as_deref(), Some("0123456789"));
            assert_eq!(input.phone_number.as_deref(), Some("+359888"));
            assert_eq!(input.date_of_birth, None);
        }
        other => panic!("{other:?}"),
    }
    assert_eq!(screen.error(), "");
    book(&mut screen, BookRoomMessage::ChangeSearchByDateOfBirth(true));
    match book(&mut screen, BookRoomMessage::FindGuests).as_slice() {
        [Action::FindGuests { input, .. }] => {
            assert_eq!(input.date_of_birth.as_deref(), Some("1990-05-06"))
        }
        other => panic!("{other:?}"),
    }
}

#[test]
fn booking_adds_a_guest_once_and_only_when_loaded() {
    let mut screen = BookRoomScreen::new(TODAY);
    book(&mut screen, BookRoomMessage::SetError("kept".to_owned()));
    let actions = book(&mut screen, BookRoomMessage::FoundGuests(vec![1, 2, 3]));
    assert_eq!(guest_fetches(&actions), vec![1, 2, 3]);
    assert_eq!(screen.error(), "kept");
    assert!(book(&mut screen, BookRoomMessage::AddGuest(1)).is_empty());
    assert!(screen.selected_guests().is_empty());
    book(&mut screen, BookRoomMessage::GuestLoaded(Box::new(guest(1, "Ana"))));
    book(&mut screen, BookRoomMessage::GuestLoaded(Box::new(guest(2, "Boris"))));
    let actions = book(&mut screen, BookRoomMessage::ScrollGuests(3));
    assert_eq!(guest_fetches(&actions), vec![3]);
    book(&mut screen, BookRoomMessage::AddGuest(2));
    book(&mut screen, BookRoomMessage::AddGuest(1));
    book(&mut screen, BookRoomMessage::AddGuest(2));
    book(&mut screen, BookRoomMessage::AddGuest(3));
    let names: Vec<&str> =
        screen.selected_guests().iter().map(|guest| guest.first_name.as_str()).collect();
    assert_eq!(names, vec!["Boris", "Ana"]);
    book(&mut screen, BookRoomMessage::FoundGuests(vec![9]));
    book(&mut screen, BookRoomMessage::AddGuest(1));
    assert_eq!(screen.selected_guests().len(), 2);
}

#[test]
fn booking_removing_the_main_guest_clears_the_choice() {
    let mut screen = BookRoomScreen::new(TODAY);
    for (id, name) in [(1, "Ana"), (2, "Boris"), (3, "Vera")] {
        book(&mut screen, BookRoomMessage::GuestLoaded(Box::new(guest(id, name))));
        book(&mut screen, BookRoomMessage::AddGuest(id));
    }
    book(&mut screen, BookRoomMessage::SetSelectedMainGuest(1));
    book(&mut screen, BookRoomMessage::SetSelectedMainGuest(2));
    assert_eq!(screen.main_guest_id(), Some(2));
    book(&mut screen, BookRoomMessage::RemoveAddedGuest(1));
    assert_eq!(screen.main_guest_id(), Some(2));
    let ids: Vec<u128> = screen.selected_guests().iter().map(|guest| guest.id).collect();
    assert_eq!(ids, vec![2, 3]);
    book(&mut screen, BookRoomMessage::RemoveAddedGuest(2));
    assert_eq!(screen.main_guest_id(), None);
    let ids: Vec<u128> = screen.selected_guests().iter().map(|guest| guest.id).collect();
    assert_eq!(ids, vec![3]);
    book(&mut screen, BookRoomMessage::RemoveAddedGuest(7));
    assert_eq!(screen.selected_guests().len(), 1);
}

#[test]
fn booking_ignores_messages_of_other_screens() {
    let mut screen = BookRoomScreen::new(TODAY);
    assert!(screen.update(AppMessage::Logout, &logged_in()).is_empty());
    assert!(screen.update(AppMessage::NoOp, &logged_in()).is_empty());
    assert_eq!(screen.current_step(), BookRoomStep::DateAndRoom);
}

fn shown(message: AppMessage) -> (String, NotificationType) {
    match message {
        AppMessage::NotificationMessage(NotificationMessage::ShowNotification {
            message,
            notification_type,
        }) => (message, notification_type),
        other => panic!("{other:?}"),
    }
}

#[test]
fn booking_results_become_messages() {
    match map_find_rooms_result(Ok(FindUnoccupiedRoomsResult::Found(vec![1, 2]))) {
        AppMessage::BookRoomMessage(BookRoomMessage::FoundFreeRooms(ids)) => {
            assert_eq!(ids, vec![1, 2])
        }
        other => panic!("{other:?}"),
    }
    assert!(matches!(
        map_find_rooms_result(Ok(FindUnoccupiedRoomsResult::Forbidden)),
        AppMessage::TokenExpired
    ));
    match map_find_rooms_result(Ok(FindUnoccupiedRoomsResult::BadRequest("Bad dates".to_owned())))
    {
        AppMessage::BookRoomMessage(BookRoomMessage::SetError(message)) => {
            assert_eq!(message, "Bad dates")
        }
        other => panic!("{other:?}"),
    }
    assert_eq!(
        shown(map_find_rooms_result(Err("down".to_owned()))),
        ("Unexpected Error".to_owned(), NotificationType::Error)
    );
    match map_find_guests_result(Ok(FindGuestResult::Found(vec![3]))) {
        AppMessage::BookRoomMessage(BookRoomMessage::FoundGuests(ids)) => assert_eq!(ids, vec![3]),
        other => panic!("{other:?}"),
    }
    assert!(matches!(
        map_find_guests_result(Ok(FindGuestResult::Forbidden)),
        AppMessage::TokenExpired
    ));
    assert!(matches!(
        map_find_guests_result(Ok(FindGuestResult::BadRequest("x".to_owned()))),
        AppMessage::BookRoomMessage(BookRoomMessage::SetError(_))
    ));
    assert_eq!(
        shown(map_find_guests_result(Err("down".to_owned()))),
        ("Unexpected error".to_owned(), NotificationType::Error)
    );
    match BookRoomScreen::map_get_room_result(Ok(GetRoomResult::Found(room(5)))) {
        AppMessage::BookRoomMessage(BookRoomMessage::RoomLoaded(room)) => assert_eq!(room.id, 5),
        other => panic!("{other:?}"),
    }
    assert!(matches!(
        BookRoomScreen::map_get_room_result(Ok(GetRoomResult::Forbidden)),
        AppMessage::TokenExpired
    ));
    assert!(matches!(
        BookRoomScreen::map_get_room_result(Ok(GetRoomResult::BadRequest("x".to_owned()))),
        AppMessage::BookRoomMessage(BookRoomMessage::SetError(_))
    ));
    assert_eq!(
        shown(BookRoomScreen::map_get_room_result(Err("down".to_owned()))),
        ("Unexpected_message".to_owned(), NotificationType::Error)
    );
    match BookRoomScreen::map_get_guest_result(Ok(GetGuestResult::Found(Box::new(guest(6, "A")))))
    {
        AppMessage::BookRoomMessage(BookRoomMessage::GuestLoaded(guest)) => assert_eq!(guest.id, 6),
        other => panic!("{other:?}"),
    }
    assert!(matches!(
        BookRoomScreen::map_get_guest_result(Ok(GetGuestResult::Forbidden)),
        AppMessage::TokenExpired
    ));
    assert_eq!(
        shown(BookRoomScreen::map_get_guest_result(Err("down".to_owned()))),
        ("Unexpected_message".to_owned(), NotificationType::Error)
    );
}

#[test]
fn capacity_fields_have_ids_of_their_own() {
    let mut screen = BookRoomScreen::new(TODAY);
    book(&mut screen, BookRoomMessage::ChangeMaximumCapacity("4".to_owned()));
    assert_eq!(screen.focus_chain().get_selected(), Some("Book Room Max Capacity"));
    match screen.update(AppMessage::SelectNext, &logged_in()).as_slice() {
        [Action::Focus(id)] => assert_eq!(*id, "Book Room Min Capacity"),
        other => panic!("{other:?}"),
    }
    match screen.update(AppMessage::SelectNext, &logged_in()).as_slice() {
        [Action::Focus(id)] => assert_eq!(*id, "Book Room Max Capacity"),
        other => panic!("{other:?}"),
    }
    book(&mut screen, BookRoomMessage::ChangeMinimumCapacity("2".to_owned()));
    assert_eq!(screen.focus_chain().get_selected(), Some("Book Room Min Capacity"));
}

#[test]
fn booking_never_holds_a_guest_twice() {
    let mut screen = BookRoomScreen::new(TODAY);
    for round in 0..3 {
        for id in [3u128, 1, 2, 1, 3] {
            book(&mut screen, BookRoomMessage::GuestLoaded(Box::new(guest(id, "Ana"))));
            book(&mut screen, BookRoomMessage::AddGuest(id));
        }
        book(&mut screen, BookRoomMessage::RemoveAddedGuest(round + 1));
        let mut ids: Vec<u128> = screen.selected_guests().iter().map(|guest| guest.id).collect();
        let count = ids.len();
        ids.sort();
        ids.dedup();
        assert_eq!(ids.len(), count);
        for guest in screen.selected_guests() {
            assert_eq!(
                screen.select_guest_input().get_loaded(guest.id).map(|cached| cached.id),
                Some(guest.id)
            );
        }
    }
}
