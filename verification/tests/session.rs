use hotel_client::action::{schedule, Action, Schedule};
use hotel_client::app::{message_of, AppMessage, GlobalState, HotelApp, Layout, Screen, ScreenType};
use hotel_client::components::notification::{NotificationMessage, NotificationType};
use hotel_client::components::text_box::text_box::TextElement;
use hotel_client::components::validator::Validator;
use hotel_client::date::Date;
use hotel_client::screens::add_room::AddRoomMessage;
use hotel_client::screens::book_room::BookRoomMessage;
use hotel_client::screens::home::HomeScreen;
use hotel_client::screens::login::{LoginMessage, LoginScreen};
use hotel_client::screens::register::{map_register_result, RegisterMessage, RegisterScreen};
use hotel_client::screens::reset_password::{
    resend_completed, reset_completed, ResetPasswordMessage, ResetPasswordScreen,
};
use hotel_client::security::{JwtToken, Role};
use hotel_client::model::bathroom_type::BathroomType;
use hotel_client::model::bed::{Bed, BedSize};
use hotel_client::services::add_guest::add_guest_response;
use hotel_client::services::add_room::{add_room, add_room_response};
use hotel_client::services::find_guest::find_guest_response;
use hotel_client::services::find_unoccupied_rooms::map_response;
use hotel_client::services::get_guest::get_guest_response;
use hotel_client::services::get_room::get_room_response;
use hotel_client::services::login::{login, login_response, LoginOutput};
use hotel_client::services::refresh_token::{refresh_token_response, RefreshTokenOutput};
use hotel_client::services::register::RegisterResult;
use hotel_client::services::reset_password::ResetPasswordResult;
use hotel_client::services::send_otp::SendOtpResult;
use hotel_client::services::{Call, Reply};
use hotel_client::screens::add_guest::map_add_guest_result;
use hotel_client::screens::add_room::map_add_room_result;
use hotel_client::screens::book_room::{map_find_guests_result, map_find_rooms_result, BookRoomScreen};
use std::collections::VecDeque;

const TODAY: Date = Date { year: 2025, month: 6, day: 15 };

fn token_with(claims: &[(&str, serde_json::Value)]) -> String {
    let mut map = serde_json::Map::new();
    for (name, value) in claims {
        map.insert((*name).to_owned(), value.clone());
    }
    jsonwebtoken::encode(
        &jsonwebtoken::Header::default(),
        &serde_json::Value::Object(map),
        &jsonwebtoken::EncodingKey::from_secret(b"server side secret"),
    )
    .expect("the claims encode")
}

fn token_for(role: &str) -> String {
    token_with(&[
        ("role", serde_json::Value::from(role)),
        ("exp", serde_json::Value::from(1_000_000_000u64)),
        ("sub", serde_json::Value::from("user@test.com")),
    ])
}

/// Takes a message, delivers what it asks to deliver, and returns the
/// actions that are left for the surroundings.
fn run(app: &mut HotelApp, message: AppMessage) -> Vec<Action> {
    let mut queue = VecDeque::new();
    queue.push_back(message);
    let mut left = Vec::new();
    while let Some(message) = queue.pop_front() {
        for action in app.update_on(message, TODAY) {
            match message_of(action) {
                Ok(message) => queue.push_back(message),
                Err(action) => left.push(action),
            }
        }
    }
    left
}

fn login_screen(app: &HotelApp) -> &LoginScreen {
    match app.current_screen() {
        Screen::Login(screen) => screen,
        _ => panic!("expected the login screen"),
    }
}

fn logged_in_app(role: Role) -> HotelApp {
    let mut app = HotelApp::new();
    let message = app.login_completed(Ok(JwtToken { token_string: "token".to_owned(), role }));
    assert!(run(&mut app, message).is_empty());
    app
}

#[test]
fn jwt_token_reads_the_role() {
    let admin = JwtToken::new(token_for("Admin")).expect("an admin token");
    assert_eq!(admin.role, Role::Admin);
    assert_eq!(admin.token_string, token_for("Admin"));
    let user = JwtToken::new(token_for("User")).expect("a user token");
    assert_eq!(user.role, Role::User);
    assert_eq!(user.clone().token_string, token_for("User"));
}

#[test]
fn jwt_token_takes_an_expired_token_and_any_signature() {
    let token = token_with(&[
        ("role", serde_json::Value::from("User")),
        ("exp", serde_json::Value::from(1u64)),
    ]);
    assert!(JwtToken::new(token.clone()).is_some());
    let other_signature = format!("{}AAAA", &token[..token.rfind('.').unwrap() + 1]);
    assert!(JwtToken::new(other_signature).is_some());
}

#[test]
fn jwt_token_refuses_what_holds_no_role() {
    assert!(JwtToken::new(String::new()).is_none());
    assert!(JwtToken::new("not.a.token".to_owned()).is_none());
    assert!(JwtToken::new(token_for("Owner")).is_none());
    assert!(JwtToken::new(token_for("admin")).is_none());
    assert!(JwtToken::new(token_with(&[("exp", serde_json::Value::from(5u64))])).is_none());
    assert!(JwtToken::new(token_with(&[("role", serde_json::Value::from("Admin"))])).is_none());
    assert!(JwtToken::new(token_with(&[
        ("role", serde_json::Value::from(7u64)),
        ("exp", serde_json::Value::from(5u64)),
    ]))
    .is_none());
}

#[test]
fn jwt_token_from_claim_knows_two_roles() {
    let token = |claim: Option<&str>| JwtToken::from_claim("t".to_owned(), claim.map(str::to_owned));
    assert_eq!(token(Some("User")).map(|token| token.role), Some(Role::User));
    assert_eq!(token(Some("Admin")).map(|token| token.role), Some(Role::Admin));
    assert!(token(Some("")).is_none());
    assert!(token(Some("USER")).is_none());
    assert!(token(None).is_none());
}

#[test]
fn app_starts_on_the_login_screen() {
    let app = HotelApp::new();
    assert_eq!(app.title(), "Hotel");
    assert_eq!(app.screen_type(), ScreenType::Login);
    assert!(matches!(app.current_screen(), Screen::Login(_)));
    assert!(app.global_state().token.is_none());
    assert!(app.global_state().email.is_none());
    assert!(!app.notification().is_displayed());
    assert_eq!(app.layout(), Layout::Bare);
    assert_eq!(login_screen(&app).email().get_text(), "");
    assert_eq!(login_screen(&app).password().get_text(), "");
    assert_eq!(login_screen(&app).error(), "");
}

#[test]
fn login_end_to_end() {
    let mut app = HotelApp::new();
    let typed = |message: LoginMessage| AppMessage::LoginMessage(message);
    assert!(run(&mut app, typed(LoginMessage::ChangeEmail("user@test.com".to_owned()))).is_empty());
    assert!(run(&mut app, typed(LoginMessage::ChangePassword("Secret123!".to_owned()))).is_empty());
    assert_eq!(login_screen(&app).focus_chain().get_selected(), Some("Login Password"));
    let (email, password) = match run(&mut app, typed(LoginMessage::Login)).pop() {
        Some(Action::Login { email, password }) => (email, password),
        other => panic!("{other:?}"),
    };
    assert_eq!(email, "user@test.com");
    assert_eq!(password, "Secret123!");
    let request = match login(&app.global_state().validator, email, password) {
        Call::Send(request) => request,
        Call::Answer(answer) => panic!("{answer:?}"),
    };
    assert_eq!(request.url, "http://localhost:8080/auth/login");
    let jwt = token_for("Admin");
    let result = login_response(Reply::Success(Ok(LoginOutput { token: jwt.clone() })));
    let message = app.login_completed(result);
    assert!(matches!(message, AppMessage::NavigateTo(ScreenType::Home)));
    assert!(run(&mut app, message).is_empty());
    let session = app.global_state().token.as_ref().expect("the session is open");
    assert_eq!(session.token_string, jwt);
    assert_eq!(session.role, Role::Admin);
    assert_eq!(app.screen_type(), ScreenType::Home);
    assert!(matches!(app.current_screen(), Screen::Home(_)));
    assert_eq!(app.layout(), Layout::AdminNavigation);
}

#[test]
fn login_failure_is_shown_on_the_screen() {
    let mut app = HotelApp::new();
    let result = login_response(Reply::Failure { status: 401, error: None });
    let message = app.login_completed(result);
    assert!(run(&mut app, message).is_empty());
    assert_eq!(login_screen(&app).error(), "Incorrect credentials");
    assert!(app.global_state().token.is_none());
    assert_eq!(app.screen_type(), ScreenType::Login);
    let answer = match login(&Validator::default(), "nobody".to_owned(), "x".to_owned()) {
        Call::Answer(answer) => answer,
        Call::Send(_) => panic!("nothing is sent for a bad address"),
    };
    let message = app.login_completed(answer);
    run(&mut app, message);
    assert_eq!(login_screen(&app).error(), "Invalid email");
}

#[test]
fn layout_follows_the_role() {
    let mut app = logged_in_app(Role::User);
    assert_eq!(app.layout(), Layout::UserNavigation);
    run(&mut app, AppMessage::NavigateTo(ScreenType::Register));
    assert_eq!(app.layout(), Layout::Bare);
    run(&mut app, AppMessage::NavigateTo(ScreenType::ResetPassword));
    assert_eq!(app.layout(), Layout::Bare);
    let mut app = logged_in_app(Role::Admin);
    run(&mut app, AppMessage::NavigateTo(ScreenType::BookRoom));
    assert_eq!(app.layout(), Layout::AdminNavigation);
    let mut app = HotelApp::new();
    run(&mut app, AppMessage::NavigateTo(ScreenType::AddGuest));
    assert_eq!(app.layout(), Layout::UserNavigation);
}

#[test]
fn navigation_puts_up_a_fresh_screen() {
    let mut app = logged_in_app(Role::Admin);
    for (screen_type, check) in [
        (ScreenType::AddRoom, 0),
        (ScreenType::AddGuest, 1),
        (ScreenType::BookRoom, 2),
        (ScreenType::Register, 3),
        (ScreenType::ResetPassword, 4),
        (ScreenType::Login, 5),
        (ScreenType::Home, 6),
    ] {
        assert!(run(&mut app, AppMessage::NavigateTo(screen_type)).is_empty());
        assert_eq!(app.screen_type(), screen_type);
        let matches = match (check, app.current_screen()) {
            (0, Screen::AddRoom(_)) => true,
            (1, Screen::AddGuest(screen)) => screen.date_of_birth_input().get_date() == TODAY,
            (2, Screen::BookRoom(screen)) => screen.start_date_input().get_date() == TODAY,
            (3, Screen::Register(_)) => true,
            (4, Screen::ResetPassword(_)) => true,
            (5, Screen::Login(_)) => true,
            (6, Screen::Home(_)) => true,
            _ => false,
        };
        assert!(matches);
    }
    run(&mut app, AppMessage::NavigateTo(ScreenType::AddRoom));
    run(&mut app, AppMessage::AddRoomMessage(AddRoomMessage::ChangeFloor("3".to_owned())));
    run(&mut app, AppMessage::NavigateTo(ScreenType::AddRoom));
    match app.current_screen() {
        Screen::AddRoom(screen) => assert_eq!(screen.floor().get_text(), ""),
        _ => panic!("expected the room form"),
    }
}

#[test]
fn update_takes_todays_date() {
    let mut app = HotelApp::new();
    assert!(app.update(AppMessage::NavigateTo(ScreenType::BookRoom)).is_empty());
    match app.current_screen() {
        Screen::BookRoom(screen) => {
            let today = screen.start_date_input().get_date();
            assert!(today.year >= 2024);
            assert!((1..=12).contains(&today.month));
        }
        _ => panic!("expected the booking screen"),
    }
}

#[test]
fn home_screen_does_nothing() {
    let mut screen = HomeScreen::new();
    assert!(screen.update(AppMessage::SelectNext).is_empty());
    assert!(screen.update(AppMessage::LoginMessage(LoginMessage::Login)).is_empty());
    assert_eq!(screen, HomeScreen::new());
}

#[test]
fn expired_session_ends_at_the_login_screen() {
    let mut app = logged_in_app(Role::Admin);
    run(&mut app, AppMessage::NavigateTo(ScreenType::BookRoom));
    let left = run(&mut app, AppMessage::TokenExpired);
    assert!(matches!(left.as_slice(), [Action::ClearNotificationAfter(4)]));
    assert!(app.global_state().token.is_none());
    assert_eq!(app.screen_type(), ScreenType::Login);
    assert!(matches!(app.current_screen(), Screen::Login(_)));
    assert!(app.notification().is_displayed());
    assert_eq!(app.notification().message(), "Login session expired");
    assert_eq!(app.notification().notification_type(), NotificationType::Error);
}

#[test]
fn status_401_expires_the_session_whatever_was_called() {
    fn unauthorized<T>() -> Reply<T> {
        Reply::Failure { status: 401, error: Some("Unauthorized".to_owned()) }
    }
    let messages = vec![
        map_add_room_result(add_room_response(unauthorized())),
        map_add_guest_result(add_guest_response(unauthorized())),
        map_find_rooms_result(map_response(unauthorized())),
        map_find_guests_result(find_guest_response(unauthorized())),
        BookRoomScreen::map_get_room_result(get_room_response(unauthorized())),
        BookRoomScreen::map_get_guest_result(get_guest_response(unauthorized(), 1)),
    ];
    assert_eq!(messages.len(), 6);
    for message in messages {
        assert!(matches!(message, AppMessage::TokenExpired));
        let mut app = logged_in_app(Role::User);
        run(&mut app, AppMessage::NavigateTo(ScreenType::AddRoom));
        run(&mut app, message);
        assert!(app.global_state().token.is_none());
        assert_eq!(app.screen_type(), ScreenType::Login);
        assert_eq!(app.notification().message(), "Login session expired");
        assert!(app.notification().is_displayed());
    }
}

#[test]
fn logout_forgets_the_token_and_tells_the_server() {
    let mut app = logged_in_app(Role::User);
    let left = run(&mut app, AppMessage::Logout);
    match left.as_slice() {
        [Action::Logout { token }] => assert_eq!(token.as_deref(), Some("token")),
        other => panic!("{other:?}"),
    }
    assert!(app.global_state().token.is_none());
    assert_eq!(app.screen_type(), ScreenType::Login);
    assert!(matches!(HotelApp::logout_completed(Ok(())), AppMessage::NoOp));
    assert!(matches!(HotelApp::logout_completed(Err("x".to_owned())), AppMessage::NoOp));
    let left = run(&mut app, AppMessage::Logout);
    match left.as_slice() {
        [Action::Logout { token }] => assert!(token.is_none()),
        other => panic!("{other:?}"),
    }
}

#[test]
fn refresh_is_asked_for_only_with_a_session() {
    let mut app = HotelApp::new();
    assert!(run(&mut app, AppMessage::RefreshToken).is_empty());
    let mut app = logged_in_app(Role::User);
    match run(&mut app, AppMessage::RefreshToken).as_slice() {
        [Action::RefreshToken { token }] => assert_eq!(token, "token"),
        other => panic!("{other:?}"),
    }
    let fresh = token_for("Admin");
    let result = refresh_token_response(Reply::Success(Ok(RefreshTokenOutput {
        token: fresh.clone(),
    })));
    assert!(matches!(app.refresh_completed(result), AppMessage::NoOp));
    let session = app.global_state().token.as_ref().expect("the session goes on");
    assert_eq!(session.token_string, fresh);
    assert_eq!(session.role, Role::Admin);
    assert!(matches!(app.refresh_completed(Err("down".to_owned())), AppMessage::NoOp));
    assert_eq!(app.global_state().token.as_ref().map(|t| t.role), Some(Role::Admin));
    assert!(run(&mut app, AppMessage::NoOp).is_empty());
}

#[test]
fn notification_messages_reach_the_notification() {
    let mut app = HotelApp::new();
    let show = AppMessage::NotificationMessage(NotificationMessage::ShowNotification {
        message: "Saved".to_owned(),
        notification_type: NotificationType::Information,
    });
    assert!(matches!(run(&mut app, show).as_slice(), [Action::ClearNotificationAfter(4)]));
    assert!(app.notification().is_displayed());
    let clear = AppMessage::NotificationMessage(NotificationMessage::ClearNotification);
    assert!(run(&mut app, clear).is_empty());
    assert!(!app.notification().is_displayed());
}

#[test]
fn actions_are_delivered_or_handed_back() {
    assert!(matches!(message_of(Action::TokenExpired), Ok(AppMessage::TokenExpired)));
    assert!(matches!(
        message_of(Action::NavigateTo(ScreenType::Home)),
        Ok(AppMessage::NavigateTo(ScreenType::Home))
    ));
    match message_of(Action::ShowAddRoomError("Add beds".to_owned())) {
        Ok(AppMessage::AddRoomMessage(AddRoomMessage::ShowError(message))) => {
            assert_eq!(message, "Add beds")
        }
        other => panic!("{other:?}"),
    }
    match message_of(Action::Notify {
        message: "Hi".to_owned(),
        notification_type: NotificationType::Success,
    }) {
        Ok(AppMessage::NotificationMessage(NotificationMessage::ShowNotification {
            message,
            notification_type,
        })) => {
            assert_eq!(message, "Hi");
            assert_eq!(notification_type, NotificationType::Success);
        }
        other => panic!("{other:?}"),
    }
    assert!(matches!(message_of(Action::Focus("field")), Err(Action::Focus("field"))));
    assert!(matches!(
        message_of(Action::ClearNotificationAfter(4)),
        Err(Action::ClearNotificationAfter(4))
    ));
    assert!(matches!(
        message_of(Action::GetRoom { token: "t".to_owned(), id: 1 }),
        Err(Action::GetRoom { id: 1, .. })
    ));
}

#[test]
fn add_room_end_to_end() {
    let mut app = logged_in_app(Role::Admin);
    run(&mut app, AppMessage::NavigateTo(ScreenType::AddRoom));
    let form = |message: AddRoomMessage| AppMessage::AddRoomMessage(message);
    run(&mut app, form(AddRoomMessage::ChagePrice("12.50".to_owned())));
    run(&mut app, form(AddRoomMessage::ChangeFloor("3".to_owned())));
    run(&mut app, form(AddRoomMessage::ChangeRoomNumber("101A".to_owned())));
    run(&mut app, form(AddRoomMessage::ChangeBathroomType(BathroomType::Private)));
    run(&mut app, form(AddRoomMessage::AddBedSizeInput));
    run(&mut app, form(AddRoomMessage::ChangeBedSize { bed_size: BedSize::Double, input_id: 0 }));
    run(&mut app, form(AddRoomMessage::ChangeBedCount { count: "2".to_owned(), input_id: 0 }));
    let (token, input) = match run(&mut app, form(AddRoomMessage::AddRoom)).pop() {
        Some(Action::AddRoom { token, input }) => (token, input),
        other => panic!("{other:?}"),
    };
    assert_eq!(input.price, 1250);
    assert_eq!(input.floor, 3);
    assert_eq!(input.room_number, "101A");
    assert_eq!(input.bathroom_type, BathroomType::Private);
    assert_eq!(input.beds, vec![Bed { bed_size: BedSize::Double, count: 2 }]);
    let request = match add_room(token, input) {
        Call::Send(request) => request,
        Call::Answer(answer) => panic!("{answer:?}"),
    };
    assert_eq!(request.body.expect("the room is sent").price, 1250);
    let message = map_add_room_result(add_room_response(Reply::Success(Ok(42))));
    let left = run(&mut app, message);
    assert!(matches!(left.as_slice(), [Action::ClearNotificationAfter(4)]));
    match app.current_screen() {
        Screen::AddRoom(screen) => {
            assert_eq!(screen.price().get_text(), "");
            assert_eq!(screen.floor().get_text(), "");
            assert_eq!(screen.room_number().get_text(), "");
            assert!(screen.bed_count_inputs().is_empty());
            assert_eq!(screen.error(), "");
        }
        _ => panic!("expected the room form"),
    }
    assert!(app.notification().is_displayed());
    assert_eq!(app.notification().message(), "Room added");
    assert_eq!(app.notification().notification_type(), NotificationType::Success);
}

#[test]
fn add_room_complaint_comes_back_as_a_message() {
    let mut app = logged_in_app(Role::Admin);
    run(&mut app, AppMessage::NavigateTo(ScreenType::AddRoom));
    assert!(run(&mut app, AppMessage::AddRoomMessage(AddRoomMessage::AddRoom)).is_empty());
    match app.current_screen() {
        Screen::AddRoom(screen) => assert_eq!(screen.error(), "Enter price"),
        _ => panic!("expected the room form"),
    }
}

#[test]
fn messages_go_to_the_screen_that_is_up() {
    let mut app = logged_in_app(Role::User);
    run(&mut app, AppMessage::NavigateTo(ScreenType::BookRoom));
    let left = run(
        &mut app,
        AppMessage::BookRoomMessage(BookRoomMessage::FoundFreeRooms(vec![1, 2])),
    );
    assert_eq!(left.len(), 2);
    run(&mut app, AppMessage::BookRoomMessage(BookRoomMessage::ChangeFirstName("A".to_owned())));
    assert!(run(&mut app, AppMessage::SelectNext).is_empty());
    run(
        &mut app,
        AppMessage::BookRoomMessage(BookRoomMessage::ChangeMinimumCapacity("2".to_owned())),
    );
    match run(&mut app, AppMessage::SelectNext).as_slice() {
        [Action::Focus(id)] => assert_eq!(*id, "Book Room Max Capacity"),
        other => panic!("{other:?}"),
    }
    run(&mut app, AppMessage::NavigateTo(ScreenType::Home));
    assert!(run(
        &mut app,
        AppMessage::BookRoomMessage(BookRoomMessage::FoundFreeRooms(vec![1, 2]))
    )
    .is_empty());
}

fn reset_code(screen: &mut LoginScreen, global_state: &GlobalState) -> Vec<Action> {
    screen.update(AppMessage::LoginMessage(LoginMessage::ResetPassword), global_state)
}

#[test]
fn login_screen_asks_for_a_code_only_with_a_good_address() {
    let global_state = GlobalState::default();
    let mut screen = LoginScreen::new();
    assert!(reset_code(&mut screen, &global_state).is_empty());
    assert_eq!(screen.error(), "Enter a valid email to reset password");
    screen.update(
        AppMessage::LoginMessage(LoginMessage::ChangeEmail("user@test.com".to_owned())),
        &global_state,
    );
    screen.update(AppMessage::LoginMessage(LoginMessage::SetError(String::new())), &global_state);
    match reset_code(&mut screen, &global_state).as_slice() {
        [Action::SendOtp { email }] => assert_eq!(email, "user@test.com"),
        other => panic!("{other:?}"),
    }
    assert_eq!(screen.error(), "");
    screen.update(
        AppMessage::LoginMessage(LoginMessage::ChangeEmail(
            "an-address-that-is-much-too-long-for-the-field@test.com".to_owned(),
        )),
        &global_state,
    );
    assert_eq!(screen.email().get_text(), "user@test.com");
}

#[test]
fn code_sent_leads_to_the_reset_screen() {
    let mut app = HotelApp::new();
    let message = app.otp_completed("user@test.com".to_owned(), Ok(SendOtpResult::Success));
    assert!(matches!(message, AppMessage::LoginMessage(LoginMessage::OtpSent)));
    let left = run(&mut app, message);
    assert!(matches!(left.as_slice(), [Action::ClearNotificationAfter(4)]));
    assert_eq!(app.global_state().email.as_deref(), Some("user@test.com"));
    assert_eq!(app.screen_type(), ScreenType::ResetPassword);
    assert_eq!(app.notification().message(), "Code sent, check your email");
    assert_eq!(app.notification().notification_type(), NotificationType::Information);

    let mut app = HotelApp::new();
    let message = app.otp_completed(
        "user@test.com".to_owned(),
        Ok(SendOtpResult::BadRequest("No such user".to_owned())),
    );
    run(&mut app, message);
    assert_eq!(login_screen(&app).error(), "No such user");
    assert!(app.global_state().email.is_none());
    let message = app.otp_completed("user@test.com".to_owned(), Err("down".to_owned()));
    run(&mut app, message);
    assert_eq!(login_screen(&app).error(), "down");
    assert_eq!(app.screen_type(), ScreenType::Login);
}

fn register(screen: &mut RegisterScreen, message: RegisterMessage) -> Vec<Action> {
    screen.update(AppMessage::RegisterMessage(message), &GlobalState::default())
}

#[test]
fn register_checks_the_form_before_it_sends() {
    let mut screen = RegisterScreen::new();
    assert!(register(&mut screen, RegisterMessage::Register).is_empty());
    assert_eq!(screen.error(), "Invalid email");
    register(&mut screen, RegisterMessage::ChangeEmail("user@test.com".to_owned()));
    assert!(register(&mut screen, RegisterMessage::Register).is_empty());
    assert_eq!(screen.error(), "Invalid password");
    register(&mut screen, RegisterMessage::ChangePassword("Secret123!".to_owned()));
    assert!(register(&mut screen, RegisterMessage::Register).is_empty());
    assert_eq!(screen.error(), "Passwords don't match");
    register(&mut screen, RegisterMessage::ChangeConfirmPassword("Secret123!".to_owned()));
    assert_eq!(screen.validate_input(&GlobalState::default()), Ok(()));
    match register(&mut screen, RegisterMessage::Register).as_slice() {
        [Action::Register(input)] => {
            assert_eq!(input.email, "user@test.com");
            assert_eq!(input.password, "Secret123!");
        }
        other => panic!("{other:?}"),
    }
    assert_eq!(screen.confirm_password().get_text(), "Secret123!");
    assert_eq!(screen.focus_chain().get_selected(), Some("Register Password Confirm"));
    match screen.update(AppMessage::SelectNext, &GlobalState::default()).as_slice() {
        [Action::Focus(id)] => assert_eq!(*id, "Register Email"),
        other => panic!("{other:?}"),
    }
}

#[test]
fn registered_user_is_sent_to_the_login_screen() {
    let mut screen = RegisterScreen::new();
    match register(&mut screen, RegisterMessage::Registered(5)).as_slice() {
        [Action::NavigateTo(ScreenType::Login), Action::Notify { message, notification_type }] => {
            assert_eq!(message, "Registered successfully");
            assert_eq!(*notification_type, NotificationType::Success);
        }
        other => panic!("{other:?}"),
    }
    register(&mut screen, RegisterMessage::UpdateError("Taken".to_owned()));
    assert_eq!(screen.error(), "Taken");
    assert!(matches!(
        map_register_result(Ok(RegisterResult::Registered(5))),
        AppMessage::RegisterMessage(RegisterMessage::Registered(5))
    ));
    assert!(matches!(
        map_register_result(Ok(RegisterResult::BadRequest("Taken".to_owned()))),
        AppMessage::RegisterMessage(RegisterMessage::UpdateError(_))
    ));
    match map_register_result(Err("down".to_owned())) {
        AppMessage::NotificationMessage(NotificationMessage::ShowNotification {
            message,
            notification_type,
        }) => {
            assert_eq!(message, "Unexpected error");
            assert_eq!(notification_type, NotificationType::Error);
        }
        other => panic!("{other:?}"),
    }
}

fn with_address() -> GlobalState {
    GlobalState { email: Some("user@test.com".to_owned()), ..GlobalState::default() }
}

fn reset(
    screen: &mut ResetPasswordScreen,
    message: ResetPasswordMessage,
    global_state: &GlobalState,
) -> Vec<Action> {
    screen.update(AppMessage::ResetPasswordMessage(message), global_state)
}

#[test]
fn reset_password_checks_in_order() {
    let global_state = with_address();
    let mut screen = ResetPasswordScreen::new();
    assert!(reset(&mut screen, ResetPasswordMessage::ResetPassword, &global_state).is_empty());
    assert_eq!(screen.error(), "Invalid password");
    reset(&mut screen, ResetPasswordMessage::ChangePassword("Secret123!".to_owned()), &global_state);
    assert!(reset(&mut screen, ResetPasswordMessage::ResetPassword, &global_state).is_empty());
    assert_eq!(screen.error(), "Passwords don't match");
    reset(
        &mut screen,
        ResetPasswordMessage::ChangeConfirmPassword("Secret123!".to_owned()),
        &global_state,
    );
    assert!(reset(&mut screen, ResetPasswordMessage::ResetPassword, &global_state).is_empty());
    assert_eq!(screen.error(), "Enter code sent to 'user@test.com'");
    reset(&mut screen, ResetPasswordMessage::ChangeOtp("  \t ".to_owned()), &global_state);
    reset(&mut screen, ResetPasswordMessage::SetError(String::new()), &global_state);
    assert!(reset(&mut screen, ResetPasswordMessage::ResetPassword, &global_state).is_empty());
    assert_eq!(screen.error(), "Enter code sent to 'user@test.com'");
    reset(&mut screen, ResetPasswordMessage::ChangeOtp(" 123456".to_owned()), &global_state);
    match reset(&mut screen, ResetPasswordMessage::ResetPassword, &global_state).as_slice() {
        [Action::ResetPassword(input)] => {
            assert_eq!(input.email, "user@test.com");
            assert_eq!(input.otp, " 123456");
            assert_eq!(input.new_password, "Secret123!");
        }
        other => panic!("{other:?}"),
    }
    reset(&mut screen, ResetPasswordMessage::ChangeOtp("123456789".to_owned()), &global_state);
    assert_eq!(screen.otp_input().get_text(), " 123456");
    assert_eq!(screen.new_password_input().get_text(), "Secret123!");
    assert_eq!(screen.confirm_new_password_input().get_text(), "Secret123!");
    assert_eq!(screen.focus_chain().get_selected(), Some("Reset Password OTP"));
}

#[test]
fn reset_password_without_an_address_goes_back_to_login() {
    let global_state = GlobalState::default();
    let mut screen = ResetPasswordScreen::new();
    let lost = |actions: Vec<Action>| match actions.as_slice() {
        [Action::NavigateTo(ScreenType::Login), Action::Notify { message, notification_type }] => {
            assert_eq!(message, "Unexpected error");
            assert_eq!(*notification_type, NotificationType::Error);
        }
        other => panic!("{other:?}"),
    };
    lost(reset(&mut screen, ResetPasswordMessage::ResendCode, &global_state));
    reset(&mut screen, ResetPasswordMessage::ChangePassword("Secret123!".to_owned()), &global_state);
    reset(
        &mut screen,
        ResetPasswordMessage::ChangeConfirmPassword("Secret123!".to_owned()),
        &global_state,
    );
    lost(reset(&mut screen, ResetPasswordMessage::ResetPassword, &global_state));
    assert_eq!(screen.error(), "");
}

#[test]
fn reset_password_resends_the_code() {
    let global_state = with_address();
    let mut screen = ResetPasswordScreen::new();
    match reset(&mut screen, ResetPasswordMessage::ResendCode, &global_state).as_slice() {
        [Action::ResendOtp { email }] => assert_eq!(email, "user@test.com"),
        other => panic!("{other:?}"),
    }
    reset(&mut screen, ResetPasswordMessage::SetError("Wrong code".to_owned()), &global_state);
    assert_eq!(screen.error(), "Wrong code");
    let resent = ResetPasswordMessage::CodeResent { email: "user@test.com".to_owned() };
    match reset(&mut screen, resent, &global_state).as_slice() {
        [Action::Notify { message, notification_type }] => {
            assert_eq!(message, "Code sent to 'user@test.com'");
            assert_eq!(*notification_type, NotificationType::Information);
        }
        other => panic!("{other:?}"),
    }
    assert_eq!(screen.error(), "");
    match reset(&mut screen, ResetPasswordMessage::ResetPasswordSuccess, &global_state).as_slice()
    {
        [Action::Notify { message, notification_type }, Action::NavigateTo(ScreenType::Login)] => {
            assert_eq!(message, "Password reset successful");
            assert_eq!(*notification_type, NotificationType::Success);
        }
        other => panic!("{other:?}"),
    }
}

#[test]
fn reset_password_results_become_messages() {
    match resend_completed("user@test.com".to_owned(), Ok(SendOtpResult::Success)) {
        AppMessage::ResetPasswordMessage(ResetPasswordMessage::CodeResent { email }) => {
            assert_eq!(email, "user@test.com")
        }
        other => panic!("{other:?}"),
    }
    assert!(matches!(
        resend_completed("a".to_owned(), Ok(SendOtpResult::BadRequest("x".to_owned()))),
        AppMessage::ResetPasswordMessage(ResetPasswordMessage::SetError(_))
    ));
    assert!(matches!(
        resend_completed("a".to_owned(), Err("down".to_owned())),
        AppMessage::NotificationMessage(_)
    ));
    assert!(matches!(
        reset_completed(Ok(ResetPasswordResult::PasswordReset)),
        AppMessage::ResetPasswordMessage(ResetPasswordMessage::ResetPasswordSuccess)
    ));
    match reset_completed(Ok(ResetPasswordResult::BadRequest("Wrong code".to_owned()))) {
        AppMessage::ResetPasswordMessage(ResetPasswordMessage::SetError(message)) => {
            assert_eq!(message, "Wrong code")
        }
        other => panic!("{other:?}"),
    }
    match reset_completed(Err("down".to_owned())) {
        AppMessage::NotificationMessage(NotificationMessage::ShowNotification {
            message,
            notification_type,
        }) => {
            assert_eq!(message, "Unexpected error");
            assert_eq!(notification_type, NotificationType::Error);
        }
        other => panic!("{other:?}"),
    }
}

#[test]
fn tab_moves_on_and_shift_tab_moves_back() {
    assert!(matches!(hotel_client::app::tab_message(false), AppMessage::SelectNext));
    assert!(matches!(hotel_client::app::tab_message(true), AppMessage::SelectPrev));
}

#[test]
fn utils_hand_on_the_shared_helpers() {
    assert_eq!(hotel_client::utils::string_to_date("2030-01-01"), Date::from_ymd(2030, 1, 1));
    assert_eq!(hotel_client::utils::decode_error_response(500, None), "Unexpected error");
    match hotel_client::utils::show_notification("Hi".to_owned(), NotificationType::Success) {
        AppMessage::NotificationMessage(NotificationMessage::ShowNotification {
            message,
            notification_type,
        }) => {
            assert_eq!(message, "Hi");
            assert_eq!(notification_type, NotificationType::Success);
        }
        other => panic!("{other:?}"),
    }
}

#[test]
fn fetches_run_together_and_other_actions_in_order() {
    use_schedule(vec![], Schedule::InOrder);
    use_schedule(
        vec![
            Action::GetRoom { token: "t".to_owned(), id: 1 },
            Action::GetRoom { token: "t".to_owned(), id: 2 },
        ],
        Schedule::Together,
    );
    use_schedule(vec![Action::GetGuest { token: "t".to_owned(), id: 1 }], Schedule::Together);
    use_schedule(
        vec![Action::GetGuest { token: "t".to_owned(), id: 1 }, Action::TokenExpired],
        Schedule::InOrder,
    );
    use_schedule(
        vec![
            Action::NavigateTo(ScreenType::Login),
            Action::Logout { token: None },
        ],
        Schedule::InOrder,
    );
}

fn use_schedule(actions: Vec<Action>, expected: Schedule) {
    assert_eq!(schedule(&actions), expected);
}
