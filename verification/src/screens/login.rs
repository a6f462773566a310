//! The login screen.

use vstd::prelude::*;
use crate::action::{
    actions_view,
    focus_actions,
    focus_on,
    no_actions,
    nothing,
    one_action,
    two_actions,
    Action,
    ActionView,
};
use crate::app::{AppMessage, GlobalState, GlobalStateView, ScreenType};
use crate::components::focus_chain::{ids_of, pairwise_distinct, FocusChain, FocusChainView};
use crate::components::notification::NotificationType;
use crate::components::text_box::text_box::{TextBox, TextBoxView, TextElement};
use crate::components::validator::Validator;
use crate::constants::{MAX_EMAIL_LENGTH, MAX_PASSWORD_LENGTH};
use crate::security::JwtToken;
use crate::services::send_otp::SendOtpResult;

verus! {

#[derive(Debug, Clone)]
pub enum LoginMessage {
    ChangeEmail(String),
    ChangePassword(String),
    ResetPassword,
    OtpSent,
    Login,
    SetError(String),
}

pub const EMAIL_ID: &'static str = "Login Email";

pub const PASSWORD_ID: &'static str = "Login Password";

pub struct LoginScreen {
    email: TextBox,
    password: TextBox,
    error: String,
    focus_chain: FocusChain,
}

pub struct LoginScreenView {
    pub email: TextBoxView,
    pub password: TextBoxView,
    pub error: Seq<char>,
    pub focus_chain: FocusChainView,
}

/// The fields of the screen in the order that Tab visits them.
pub open spec fn field_ids() -> Seq<Seq<char>> {
    seq![EMAIL_ID@, PASSWORD_ID@]
}

/// The screen lists no field twice.
pub proof fn lemma_field_ids_distinct()
    ensures
        pairwise_distinct(field_ids()),
{
    reveal_strlit("Login Email");
    reveal_strlit("Login Password");
    assert(EMAIL_ID@ != PASSWORD_ID@) by {
        assert(EMAIL_ID@.len() != PASSWORD_ID@.len());
    }
}

impl LoginScreenView {
    /// The screen as it is first shown.
    pub open spec fn initial() -> LoginScreenView {
        LoginScreenView {
            email: TextBoxView { text: Seq::empty(), max_length: MAX_EMAIL_LENGTH as nat },
            password: TextBoxView { text: Seq::empty(), max_length: MAX_PASSWORD_LENGTH as nat },
            error: Seq::empty(),
            focus_chain: FocusChainView { chain: field_ids(), selected: None },
        }
    }

    /// Whether a code for a new password can be asked for: the address has
    /// to be well formed.
    pub open spec fn can_reset(self) -> bool {
        Validator::email_verdict(self.email.text) is Ok
    }

    /// The screen after a message of its own.
    pub open spec fn after(self, message: LoginMessage) -> LoginScreenView {
        match message {
            LoginMessage::ChangeEmail(text) => LoginScreenView {
                focus_chain: self.focus_chain.focus_on(Some(EMAIL_ID@)),
                email: self.email.update(text@),
                ..self
            },
            LoginMessage::ChangePassword(text) => LoginScreenView {
                focus_chain: self.focus_chain.focus_on(Some(PASSWORD_ID@)),
                password: self.password.update(text@),
                ..self
            },
            LoginMessage::ResetPassword => if self.can_reset() {
                self
            } else {
                LoginScreenView { error: "Enter a valid email to reset password"@, ..self }
            },
            LoginMessage::SetError(err) => LoginScreenView { error: err@, ..self },
            LoginMessage::OtpSent => self,
            LoginMessage::Login => self,
        }
    }

    /// What a message of the screen's own asks for.
    pub open spec fn asks(self, message: LoginMessage) -> Seq<ActionView> {
        match message {
            LoginMessage::Login => seq![
                ActionView::Login { email: self.email.text, password: self.password.text },
            ],
            LoginMessage::ResetPassword => if self.can_reset() {
                seq![ActionView::SendOtp { email: self.email.text }]
            } else {
                nothing()
            },
            LoginMessage::OtpSent => seq![
                ActionView::Notify {
                    message: "Code sent, check your email"@,
                    notification_type: NotificationType::Information,
                },
                ActionView::NavigateTo(ScreenType::ResetPassword),
            ],
            _ => nothing(),
        }
    }

    /// The screen after any message, and what the message asks for.
    pub open spec fn step(self, message: AppMessage) -> (LoginScreenView, Seq<ActionView>) {
        match message {
            AppMessage::LoginMessage(m) => (self.after(m), self.asks(m)),
            AppMessage::SelectNext => (
                LoginScreenView { focus_chain: self.focus_chain.advance(), ..self },
                focus_actions(self.focus_chain.advance().current()),
            ),
            AppMessage::SelectPrev => (
                LoginScreenView { focus_chain: self.focus_chain.retreat(), ..self },
                focus_actions(self.focus_chain.retreat().current()),
            ),
            _ => (self, nothing()),
        }
    }
}

impl View for LoginScreen {
    type V = LoginScreenView;

    closed spec fn view(&self) -> LoginScreenView {
        LoginScreenView {
            email: self.email@,
            password: self.password@,
            error: self.error@,
            focus_chain: self.focus_chain@,
        }
    }
}

/// The session after a login has come back, and the message for it: a token
/// opens the session and leads to the home screen, an error is shown.
pub fn login_completed(global_state: &mut GlobalState, result: Result<JwtToken, String>) -> (r:
    AppMessage)
    ensures
        match result {
            Ok(token) => final(global_state)@ == (GlobalStateView {
                token: Some(token@),
                ..old(global_state)@
            }) && r == AppMessage::NavigateTo(ScreenType::Home),
            Err(err) => final(global_state)@ == old(global_state)@ && r == AppMessage::LoginMessage(
                LoginMessage::SetError(err),
            ),
        },
{
    match result {
        Ok(token) => {
            global_state.token = Some(token);
            AppMessage::NavigateTo(ScreenType::Home)
        },
        Err(err) => AppMessage::LoginMessage(LoginMessage::SetError(err)),
    }
}

/// What is remembered after a code has been asked for `email`, and the
/// message for it: once the code is sent the address is kept for the screen
/// that follows.
pub fn otp_completed(
    global_state: &mut GlobalState,
    email: String,
    result: Result<SendOtpResult, String>,
) -> (r: AppMessage)
    ensures
        match result {
            Ok(SendOtpResult::Success) => final(global_state)@ == (GlobalStateView {
                email: Some(email@),
                ..old(global_state)@
            }) && r == AppMessage::LoginMessage(LoginMessage::OtpSent),
            Ok(SendOtpResult::BadRequest(err)) => final(global_state)@ == old(global_state)@ && r
                == AppMessage::LoginMessage(LoginMessage::SetError(err)),
            Err(err) => final(global_state)@ == old(global_state)@ && r == AppMessage::LoginMessage(
                LoginMessage::SetError(err),
            ),
        },
{
    match result {
        Ok(SendOtpResult::Success) => {
            global_state.email = Some(email);
            AppMessage::LoginMessage(LoginMessage::OtpSent)
        },
        Ok(SendOtpResult::BadRequest(err)) => AppMessage::LoginMessage(LoginMessage::SetError(err)),
        Err(err) => AppMessage::LoginMessage(LoginMessage::SetError(err)),
    }
}

impl LoginScreen {
    /// The screen as it is first shown.
    pub fn new() -> (r: Self)
        ensures
            r@ == LoginScreenView::initial(),
    {
        proof {
            reveal_strlit("");
            assert(""@ =~= Seq::<char>::empty());
        }
        let fields = vec![EMAIL_ID, PASSWORD_ID];
        assert(ids_of(fields@) =~= seq![EMAIL_ID@, PASSWORD_ID@]);
        Self {
            email: TextBox::new("", MAX_EMAIL_LENGTH),
            password: TextBox::new("", MAX_PASSWORD_LENGTH),
            error: String::new(),
            focus_chain: FocusChain::new(fields),
        }
    }

    fn reset_password(&mut self, global_state: &GlobalState) -> (actions: Vec<Action>)
        ensures
            final(self)@ == old(self)@.after(LoginMessage::ResetPassword),
            actions_view(actions@) == old(self)@.asks(LoginMessage::ResetPassword),
    {
        if global_state.validator.validate_email(self.email.get_text()).is_err() {
            self.error = "Enter a valid email to reset password".to_owned();
            return no_actions();
        }
        one_action(Action::SendOtp { email: self.email.get_text().to_owned() })
    }

    /// Takes a message and says what it asks for.
    pub fn update(&mut self, message: AppMessage, global_state: &GlobalState) -> (actions: Vec<
        Action,
    >)
        ensures
            final(self)@ == old(self)@.step(message).0,
            actions_view(actions@) == old(self)@.step(message).1,
    {
        match message {
            AppMessage::LoginMessage(login_message) => match login_message {
                LoginMessage::ChangeEmail(email) => {
                    self.focus_chain.set_focus(Some(EMAIL_ID));
                    self.email.update(email);
                    no_actions()
                },
                LoginMessage::ChangePassword(password) => {
                    self.focus_chain.set_focus(Some(PASSWORD_ID));
                    self.password.update(password);
                    no_actions()
                },
                LoginMessage::Login => {
                    let email = self.email.get_text().to_owned();
                    let password = self.password.get_text().to_owned();
                    one_action(Action::Login { email, password })
                },
                LoginMessage::ResetPassword => self.reset_password(global_state),
                LoginMessage::OtpSent => two_actions(
                    Action::Notify {
                        message: "Code sent, check your email".to_owned(),
                        notification_type: NotificationType::Information,
                    },
                    Action::NavigateTo(ScreenType::ResetPassword),
                ),
                LoginMessage::SetError(err) => {
                    self.error = err;
                    no_actions()
                },
            },
            AppMessage::SelectNext => {
                self.focus_chain.set_next();
                focus_on(self.focus_chain.apply_focus())
            },
            AppMessage::SelectPrev => {
                self.focus_chain.set_prev();
                focus_on(self.focus_chain.apply_focus())
            },
            _ => no_actions(),
        }
    }

    /// The complaint shown on the screen.
    pub fn error(&self) -> (r: &str)
        ensures
            r@ == self@.error,
    {
        self.error.as_str()
    }

    pub fn email(&self) -> (r: &TextBox)
        ensures
            r@ == self@.email,
    {
        &self.email
    }

    pub fn password(&self) -> (r: &TextBox)
        ensures
            r@ == self@.password,
    {
        &self.password
    }

    pub fn focus_chain(&self) -> (r: &FocusChain)
        ensures
            r@ == self@.focus_chain,
    {
        &self.focus_chain
    }
}

} // verus!
