//! The application as a whole: which screen is up, who is logged in, and
//! what each message does.

use vstd::prelude::*;
use crate::action::{
    actions_view,
    no_actions,
    nothing,
    one_action,
    two_actions,
    Action,
    ActionView,
};
use crate::components::notification::{
    Notification,
    NotificationMessage,
    NotificationType,
    NotificationView,
};
use crate::components::validator::Validator;
use crate::date::Date;
use crate::screens::add_guest::{AddGuestMessage, AddGuestScreen, AddGuestScreenView};
use crate::screens::add_room::{AddRoomMessage, AddRoomScreen, AddRoomScreenView};
use crate::screens::book_room::{BookRoomMessage, BookRoomScreen, BookRoomScreenView};
use crate::screens::home::HomeScreen;
use crate::screens::login::{LoginMessage, LoginScreen, LoginScreenView};
use crate::screens::register::{RegisterMessage, RegisterScreen, RegisterScreenView};
use crate::screens::reset_password::{
    ResetPasswordMessage,
    ResetPasswordScreen,
    ResetPasswordScreenView,
};
use crate::security::{opt_token, JwtToken, JwtTokenView, Role};
use crate::services::send_otp::SendOtpResult;
use crate::text::{clone_opt_text, opt_text};
use crate::utils::show_notification;

verus! {

/// What all screens share: the session, the checks, and the address that a
/// code for a new password was sent to.
#[derive(Debug)]
pub struct GlobalState {
    pub token: Option<JwtToken>,
    pub validator: Validator,
    pub email: Option<String>,
}

pub struct GlobalStateView {
    pub token: Option<JwtTokenView>,
    pub email: Option<Seq<char>>,
}

impl View for GlobalState {
    type V = GlobalStateView;

    open spec fn view(&self) -> GlobalStateView {
        GlobalStateView { token: opt_token(self.token), email: opt_text(self.email) }
    }
}

impl GlobalStateView {
    /// The text of the session's token.
    pub open spec fn token_text(self) -> Option<Seq<char>> {
        match self.token {
            Some(session) => Some(session.token_string),
            None => None,
        }
    }
}

impl GlobalState {
    /// A copy of the text of the session's token.
    pub fn token_string(&self) -> (r: Option<String>)
        ensures
            opt_text(r) == self@.token_text(),
    {
        match &self.token {
            Some(session) => Some(session.token_string.clone()),
            None => None,
        }
    }

    /// A copy of the address that a code was sent to.
    pub fn email(&self) -> (r: Option<String>)
        ensures
            opt_text(r) == self@.email,
    {
        clone_opt_text(&self.email)
    }
}

impl Default for GlobalState {
    fn default() -> (r: GlobalState)
        ensures
            r@ == (GlobalStateView { token: None, email: None }),
    {
        GlobalState { token: None, validator: Validator {  }, email: None }
    }
}

#[derive(Debug, Clone, Copy, PartialEq, Eq, Structural)]
pub enum ScreenType {
    Home,
    Login,
    AddRoom,
    AddGuest,
    Register,
    ResetPassword,
    BookRoom,
}

#[derive(Debug, Clone)]
pub enum AppMessage {
    /// Nothing to do.
    NoOp,
    SelectNext,
    SelectPrev,
    RefreshToken,
    Logout,
    TokenExpired,
    NotificationMessage(NotificationMessage),
    NavigateTo(ScreenType),
    LoginMessage(LoginMessage),
    AddRoomMessage(AddRoomMessage),
    AddGuestMessage(AddGuestMessage),
    RegisterMessage(RegisterMessage),
    ResetPasswordMessage(ResetPasswordMessage),
    BookRoomMessage(BookRoomMessage),
}

impl AppMessage {
    /// Whether this is the message that shows the notification `text` of
    /// the given kind.
    pub open spec fn shows(self, text: Seq<char>, kind: NotificationType) -> bool {
        self matches AppMessage::NotificationMessage(
            NotificationMessage::ShowNotification { message, notification_type },
        ) && message@ == text && notification_type == kind
    }
}

/// The screen that is up, with its state.
pub enum Screen {
    Home(HomeScreen),
    Login(LoginScreen),
    AddRoom(AddRoomScreen),
    AddGuest(AddGuestScreen),
    Register(RegisterScreen),
    ResetPassword(ResetPasswordScreen),
    BookRoom(BookRoomScreen),
}

pub enum ScreenView {
    Home,
    Login(LoginScreenView),
    AddRoom(AddRoomScreenView),
    AddGuest(AddGuestScreenView),
    Register(RegisterScreenView),
    ResetPassword(ResetPasswordScreenView),
    BookRoom(BookRoomScreenView),
}

impl View for Screen {
    type V = ScreenView;

    open spec fn view(&self) -> ScreenView {
        match self {
            Screen::Home(_) => ScreenView::Home,
            Screen::Login(screen) => ScreenView::Login(screen@),
            Screen::AddRoom(screen) => ScreenView::AddRoom(screen@),
            Screen::AddGuest(screen) => ScreenView::AddGuest(screen@),
            Screen::Register(screen) => ScreenView::Register(screen@),
            Screen::ResetPassword(screen) => ScreenView::ResetPassword(screen@),
            Screen::BookRoom(screen) => ScreenView::BookRoom(screen@),
        }
    }
}

impl ScreenView {
    /// A screen of the given kind as it is first shown on the day `today`.
    pub open spec fn initial(screen_type: ScreenType, today: Date) -> ScreenView {
        match screen_type {
            ScreenType::Home => ScreenView::Home,
            ScreenType::Login => ScreenView::Login(LoginScreenView::initial()),
            ScreenType::AddRoom => ScreenView::AddRoom(AddRoomScreenView::initial()),
            ScreenType::AddGuest => ScreenView::AddGuest(AddGuestScreenView::initial(today)),
            ScreenType::Register => ScreenView::Register(RegisterScreenView::initial()),
            ScreenType::ResetPassword => ScreenView::ResetPassword(
                ResetPasswordScreenView::initial(),
            ),
            ScreenType::BookRoom => ScreenView::BookRoom(BookRoomScreenView::initial(today)),
        }
    }

    /// The screen after a message, and what the message asks for.
    pub open spec fn step(self, message: AppMessage, global: GlobalStateView, today: Date) -> (
        ScreenView,
        Seq<ActionView>,
    ) {
        match self {
            ScreenView::Home => (self, nothing()),
            ScreenView::Login(screen) => (
                ScreenView::Login(screen.step(message).0),
                screen.step(message).1,
            ),
            ScreenView::AddRoom(screen) => (
                ScreenView::AddRoom(screen.step(message, global).0),
                screen.step(message, global).1,
            ),
            ScreenView::AddGuest(screen) => (
                ScreenView::AddGuest(screen.step(message, global, today).0),
                screen.step(message, global, today).1,
            ),
            ScreenView::Register(screen) => (
                ScreenView::Register(screen.step(message).0),
                screen.step(message).1,
            ),
            ScreenView::ResetPassword(screen) => (
                ScreenView::ResetPassword(screen.step(message, global).0),
                screen.step(message, global).1,
            ),
            ScreenView::BookRoom(screen) => (
                ScreenView::BookRoom(screen.step(message, global).0),
                screen.step(message, global).1,
            ),
        }
    }
}

impl ScreenType {
    /// A screen of this kind as it is first shown on the day `today`.
    pub fn create_screen(&self, today: Date) -> (r: Screen)
        ensures
            r@ == ScreenView::initial(*self, today),
    {
        match self {
            ScreenType::Home => Screen::Home(HomeScreen::new()),
            ScreenType::Login => Screen::Login(LoginScreen::new()),
            ScreenType::AddRoom => Screen::AddRoom(AddRoomScreen::new()),
            ScreenType::AddGuest => Screen::AddGuest(AddGuestScreen::new(today)),
            ScreenType::Register => Screen::Register(RegisterScreen::new()),
            ScreenType::ResetPassword => Screen::ResetPassword(ResetPasswordScreen::new()),
            ScreenType::BookRoom => Screen::BookRoom(BookRoomScreen::new(today)),
        }
    }
}

impl Screen {
    /// Hands a message to the screen and says what it asks for.
    pub fn update(&mut self, message: AppMessage, global_state: &GlobalState, today: Date) -> (actions:
        Vec<Action>)
        ensures
            final(self)@ == old(self)@.step(message, global_state@, today).0,
            actions_view(actions@) == old(self)@.step(message, global_state@, today).1,
    {
        match self {
            Screen::Home(screen) => screen.update(message),
            Screen::Login(screen) => screen.update(message, global_state),
            Screen::AddRoom(screen) => screen.update(message, global_state),
            Screen::AddGuest(screen) => screen.update(message, global_state, today),
            Screen::Register(screen) => screen.update(message, global_state),
            Screen::ResetPassword(screen) => screen.update(message, global_state),
            Screen::BookRoom(screen) => screen.update(message, global_state),
        }
    }
}

/// What stands around the screen.
#[derive(Debug, Clone, Copy, PartialEq, Eq, Structural)]
pub enum Layout {
    /// Nothing: the screen stands alone.
    Bare,
    /// The navigation of a plain user.
    UserNavigation,
    /// The navigation of an administrator.
    AdminNavigation,
}

pub struct HotelApp {
    current_screen: Screen,
    screen_type: ScreenType,
    notification: Notification,
    global_state: GlobalState,
}

pub struct HotelAppView {
    pub current_screen: ScreenView,
    pub screen_type: ScreenType,
    pub notification: NotificationView,
    pub global_state: GlobalStateView,
}

/// What is done when the session has expired: say so, and go to the login
/// screen.
pub open spec fn expiry_actions() -> Seq<ActionView> {
    seq![
        ActionView::Notify {
            message: "Login session expired"@,
            notification_type: NotificationType::Error,
        },
        ActionView::NavigateTo(ScreenType::Login),
    ]
}

impl HotelAppView {
    /// The application as it starts: on the login screen, with no session.
    pub open spec fn initial() -> HotelAppView {
        HotelAppView {
            current_screen: ScreenView::Login(LoginScreenView::initial()),
            screen_type: ScreenType::Login,
            notification: NotificationView {
                display: false,
                message: "Hello"@,
                notification_type: NotificationType::Information,
            },
            global_state: GlobalStateView { token: None, email: None },
        }
    }

    /// What stands around the screen: the screens before login stand alone,
    /// the others get the navigation that the session's role calls for.
    pub open spec fn layout(self) -> Layout {
        match self.screen_type {
            ScreenType::Login | ScreenType::Register | ScreenType::ResetPassword => Layout::Bare,
            _ => match self.global_state.token {
                Some(session) => match session.role {
                    Role::User => Layout::UserNavigation,
                    Role::Admin => Layout::AdminNavigation,
                },
                None => Layout::UserNavigation,
            },
        }
    }

    /// The application after a message taken on the day `today`.
    pub open spec fn after(self, message: AppMessage, today: Date) -> HotelAppView {
        match message {
            AppMessage::NavigateTo(screen_type) => HotelAppView {
                screen_type,
                current_screen: ScreenView::initial(screen_type, today),
                ..self
            },
            AppMessage::TokenExpired => HotelAppView {
                global_state: GlobalStateView { token: None, ..self.global_state },
                ..self
            },
            AppMessage::RefreshToken => self,
            AppMessage::NoOp => self,
            AppMessage::NotificationMessage(m) => HotelAppView {
                notification: self.notification.update(m),
                ..self
            },
            AppMessage::Logout => HotelAppView {
                global_state: GlobalStateView { token: None, ..self.global_state },
                ..self
            },
            _ => HotelAppView {
                current_screen: self.current_screen.step(message, self.global_state, today).0,
                ..self
            },
        }
    }

    /// What a message taken on the day `today` asks for.
    pub open spec fn asks(self, message: AppMessage, today: Date) -> Seq<ActionView> {
        match message {
            AppMessage::NavigateTo(_) => nothing(),
            AppMessage::TokenExpired => expiry_actions(),
            AppMessage::RefreshToken => match self.global_state.token_text() {
                Some(token) => seq![ActionView::RefreshToken { token }],
                None => nothing(),
            },
            AppMessage::NoOp => nothing(),
            AppMessage::NotificationMessage(m) => match NotificationView::clear_after(m) {
                Some(seconds) => seq![ActionView::ClearNotificationAfter(seconds)],
                None => nothing(),
            },
            AppMessage::Logout => seq![
                ActionView::NavigateTo(ScreenType::Login),
                ActionView::Logout { token: self.global_state.token_text() },
            ],
            _ => self.current_screen.step(message, self.global_state, today).1,
        }
    }
}

/// Once the session has expired there is no token any more, the user is told
/// so, and the message that follows puts the login screen up.
pub proof fn lemma_expired_session_ends_at_login(app: HotelAppView, today: Date)
    ensures
        app.after(AppMessage::TokenExpired, today).global_state.token is None,
        app.asks(AppMessage::TokenExpired, today) == expiry_actions(),
        expiry_actions()[0] == (ActionView::Notify {
            message: "Login session expired"@,
            notification_type: NotificationType::Error,
        }),
        expiry_actions()[1] == ActionView::NavigateTo(ScreenType::Login),
        app.after(AppMessage::TokenExpired, today).after(
            AppMessage::NavigateTo(ScreenType::Login),
            today,
        ).screen_type == ScreenType::Login,
        app.after(AppMessage::TokenExpired, today).after(
            AppMessage::NavigateTo(ScreenType::Login),
            today,
        ).current_screen == ScreenView::Login(LoginScreenView::initial()),
        app.after(AppMessage::TokenExpired, today).after(
            AppMessage::NavigateTo(ScreenType::Login),
            today,
        ).global_state.token is None,
{
}

impl View for HotelApp {
    type V = HotelAppView;

    closed spec fn view(&self) -> HotelAppView {
        HotelAppView {
            current_screen: self.current_screen@,
            screen_type: self.screen_type,
            notification: self.notification@,
            global_state: self.global_state@,
        }
    }
}

/// The message for the Tab key: on to the next field, or back to the one
/// before where Shift is held.
pub fn tab_message(shift_held: bool) -> (r: AppMessage)
    ensures
        r == if shift_held {
            AppMessage::SelectPrev
        } else {
            AppMessage::SelectNext
        },
{
    if shift_held {
        AppMessage::SelectPrev
    } else {
        AppMessage::SelectNext
    }
}

/// The message that an action delivers at once, or the action itself where
/// it is something else to do.
pub fn message_of(action: Action) -> (r: Result<AppMessage, Action>)
    ensures
        match action {
            Action::Notify { message, notification_type } => r matches Ok(m) && m.shows(
                message@,
                notification_type,
            ),
            Action::NavigateTo(screen) => r == Ok::<AppMessage, Action>(
                AppMessage::NavigateTo(screen),
            ),
            Action::TokenExpired => r == Ok::<AppMessage, Action>(AppMessage::TokenExpired),
            Action::ShowAddRoomError(complaint) => r == Ok::<AppMessage, Action>(
                AppMessage::AddRoomMessage(AddRoomMessage::ShowError(complaint)),
            ),
            _ => r == Err::<AppMessage, Action>(action),
        },
{
    match action {
        Action::Notify { message, notification_type } => Ok(
            show_notification(message, notification_type),
        ),
        Action::NavigateTo(screen) => Ok(AppMessage::NavigateTo(screen)),
        Action::TokenExpired => Ok(AppMessage::TokenExpired),
        Action::ShowAddRoomError(complaint) => Ok(
            AppMessage::AddRoomMessage(AddRoomMessage::ShowError(complaint)),
        ),
        other => Err(other),
    }
}

impl HotelApp {
    /// The application as it starts.
    pub fn new() -> (r: Self)
        ensures
            r@ == HotelAppView::initial(),
    {
        Self {
            current_screen: Screen::Login(LoginScreen::new()),
            screen_type: ScreenType::Login,
            global_state: GlobalState::default(),
            notification: Notification::new(),
        }
    }

    pub fn title(&self) -> (r: String)
        ensures
            r@ == "Hotel"@,
    {
        "Hotel".to_owned()
    }

    fn navigate_to(&mut self, screen: ScreenType, today: Date)
        ensures
            final(self)@ == old(self)@.after(AppMessage::NavigateTo(screen), today),
    {
        self.screen_type = screen;
        self.current_screen = screen.create_screen(today);
    }

    fn logout(&mut self) -> (actions: Vec<Action>)
        ensures
            final(self)@ == old(self)@.after(AppMessage::Logout, Date::fallback()),
            actions_view(actions@) == old(self)@.asks(AppMessage::Logout, Date::fallback()),
    {
        let token = self.global_state.token_string();
        self.global_state.token = None;
        two_actions(Action::NavigateTo(ScreenType::Login), Action::Logout { token })
    }

    fn refresh_token(&self) -> (actions: Vec<Action>)
        ensures
            actions_view(actions@) == self@.asks(AppMessage::RefreshToken, Date::fallback()),
    {
        match self.global_state.token_string() {
            Some(token) => one_action(Action::RefreshToken { token }),
            None => no_actions(),
        }
    }

    /// Takes a message on the day `today` and says what it asks for.
    pub fn update_on(&mut self, message: AppMessage, today: Date) -> (actions: Vec<Action>)
        ensures
            final(self)@ == old(self)@.after(message, today),
            actions_view(actions@) == old(self)@.asks(message, today),
    {
        match message {
            AppMessage::NavigateTo(screen_type) => {
                self.navigate_to(screen_type, today);
                no_actions()
            },
            AppMessage::TokenExpired => {
                self.global_state.token = None;
                two_actions(
                    Action::Notify {
                        message: "Login session expired".to_owned(),
                        notification_type: NotificationType::Error,
                    },
                    Action::NavigateTo(ScreenType::Login),
                )
            },
            AppMessage::RefreshToken => self.refresh_token(),
            AppMessage::NoOp => no_actions(),
            AppMessage::NotificationMessage(notification_message) => {
                match self.notification.update(notification_message) {
                    Some(seconds) => one_action(Action::ClearNotificationAfter(seconds)),
                    None => no_actions(),
                }
            },
            AppMessage::Logout => self.logout(),
            other => self.current_screen.update(other, &self.global_state, today),
        }
    }

    /// Takes a message on today's date and says what it asks for: what
    /// `update_on` does with the date that the clock gives.
    pub fn update(&mut self, message: AppMessage) -> (actions: Vec<Action>)
        ensures
            exists|today: Date|
                today.on_calendar() && final(self)@ == #[trigger] old(self)@.after(message, today)
                    && actions_view(actions@) == old(self)@.asks(message, today),
    {
        let today = Date::today();
        let actions = self.update_on(message, today);
        actions
    }

    /// The session after a login has come back, and the message for it.
    pub fn login_completed(&mut self, result: Result<JwtToken, String>) -> (r: AppMessage)
        ensures
            match result {
                Ok(token) => final(self)@ == (HotelAppView {
                    global_state: GlobalStateView { token: Some(token@), ..old(self)@.global_state },
                    ..old(self)@
                }) && r == AppMessage::NavigateTo(ScreenType::Home),
                Err(err) => final(self)@ == old(self)@ && r == AppMessage::LoginMessage(
                    LoginMessage::SetError(err),
                ),
            },
    {
        crate::screens::login::login_completed(&mut self.global_state, result)
    }

    /// What is remembered after a code has been asked for `email` on the
    /// login screen, and the message for it.
    pub fn otp_completed(&mut self, email: String, result: Result<SendOtpResult, String>) -> (r:
        AppMessage)
        ensures
            match result {
                Ok(SendOtpResult::Success) => final(self)@ == (HotelAppView {
                    global_state: GlobalStateView { email: Some(email@), ..old(self)@.global_state },
                    ..old(self)@
                }) && r == AppMessage::LoginMessage(LoginMessage::OtpSent),
                Ok(SendOtpResult::BadRequest(err)) => final(self)@ == old(self)@ && r
                    == AppMessage::LoginMessage(LoginMessage::SetError(err)),
                Err(err) => final(self)@ == old(self)@ && r == AppMessage::LoginMessage(
                    LoginMessage::SetError(err),
                ),
            },
    {
        crate::screens::login::otp_completed(&mut self.global_state, email, result)
    }

    /// The session after a refresh has come back: a fresh token takes the
    /// place of the old one, a failure changes nothing. Either way there is
    /// nothing more to do.
    pub fn refresh_completed(&mut self, result: Result<JwtToken, String>) -> (r: AppMessage)
        ensures
            r == AppMessage::NoOp,
            match result {
                Ok(token) => final(self)@ == (HotelAppView {
                    global_state: GlobalStateView { token: Some(token@), ..old(self)@.global_state },
                    ..old(self)@
                }),
                Err(_) => final(self)@ == old(self)@,
            },
    {
        match result {
            Ok(token) => {
                self.global_state.token = Some(token);
            },
            Err(_) => {},
        }
        AppMessage::NoOp
    }

    /// The message after a logout has come back: nothing more to do, however
    /// it went.
    pub fn logout_completed(result: Result<(), String>) -> (r: AppMessage)
        ensures
            r == AppMessage::NoOp,
    {
        AppMessage::NoOp
    }

    /// What stands around the screen.
    pub fn layout(&self) -> (r: Layout)
        ensures
            r == self@.layout(),
    {
        match self.screen_type {
            ScreenType::Login | ScreenType::Register | ScreenType::ResetPassword => Layout::Bare,
            _ => match &self.global_state.token {
                Some(session) => match session.role {
                    Role::User => Layout::UserNavigation,
                    Role::Admin => Layout::AdminNavigation,
                },
                None => Layout::UserNavigation,
            },
        }
    }

    pub fn current_screen(&self) -> (r: &Screen)
        ensures
            r@ == self@.current_screen,
    {
        &self.current_screen
    }

    pub fn screen_type(&self) -> (r: ScreenType)
        ensures
            r == self@.screen_type,
    {
        self.screen_type
    }

    pub fn notification(&self) -> (r: &Notification)
        ensures
            r@ == self@.notification,
    {
        &self.notification
    }

    pub fn global_state(&self) -> (r: &GlobalState)
        ensures
            r@ == self@.global_state,
    {
        &self.global_state
    }
}

} // verus!
