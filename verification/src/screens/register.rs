//! The screen that registers a user.

use vstd::prelude::*;
use crate::action::{
    actions_view,
    focus_actions,
    focus_on,
    no_actions,
    nothing,
    one_action,
    two_actions,
    Action,
    ActionView,
};
use crate::app::{AppMessage, GlobalState, ScreenType};
use crate::components::focus_chain::{ids_of, pairwise_distinct, FocusChain, FocusChainView};
use crate::components::notification::NotificationType;
use crate::components::text_box::text_box::{TextBox, TextBoxView, TextElement};
use crate::components::validator::Validator;
use crate::constants::{MAX_EMAIL_LENGTH, MAX_PASSWORD_LENGTH};
use crate::services::register::{RegisterInput, RegisterInputView, RegisterResult};
use crate::text::result_text;
use crate::utils::show_notification;

verus! {

#[derive(Debug, Clone)]
pub enum RegisterMessage {
    ChangeEmail(String),
    ChangePassword(String),
    ChangeConfirmPassword(String),
    Register,
    Registered(u128),
    UpdateError(String),
}

pub const EMAIL_ID: &'static str = "Register Email";

pub const PASSWORD_ID: &'static str = "Register Password";

pub const PASSWORD_CONFIRM_ID: &'static str = "Register Password Confirm";

pub struct RegisterScreen {
    email: TextBox,
    password: TextBox,
    confirm_password: TextBox,
    error: String,
    focus_chain: FocusChain,
}

pub struct RegisterScreenView {
    pub email: TextBoxView,
    pub password: TextBoxView,
    pub confirm_password: TextBoxView,
    pub error: Seq<char>,
    pub focus_chain: FocusChainView,
}

/// The fields of the screen in the order that Tab visits them.
pub open spec fn field_ids() -> Seq<Seq<char>> {
    seq![EMAIL_ID@, PASSWORD_ID@, PASSWORD_CONFIRM_ID@]
}

/// The screen lists no field twice.
pub proof fn lemma_field_ids_distinct()
    ensures
        pairwise_distinct(field_ids()),
{
    reveal_strlit("Register Email");
    reveal_strlit("Register Password");
    reveal_strlit("Register Password Confirm");
    assert(EMAIL_ID@ != PASSWORD_ID@) by {
        assert(EMAIL_ID@.len() != PASSWORD_ID@.len());
    }
    assert(EMAIL_ID@ != PASSWORD_CONFIRM_ID@) by {
        assert(EMAIL_ID@.len() != PASSWORD_CONFIRM_ID@.len());
    }
    assert(PASSWORD_ID@ != PASSWORD_CONFIRM_ID@) by {
        assert(PASSWORD_ID@.len() != PASSWORD_CONFIRM_ID@.len());
    }
}

impl RegisterScreenView {
    /// The screen as it is first shown.
    pub open spec fn initial() -> RegisterScreenView {
        RegisterScreenView {
            email: TextBoxView { text: Seq::empty(), max_length: MAX_EMAIL_LENGTH as nat },
            password: TextBoxView { text: Seq::empty(), max_length: MAX_PASSWORD_LENGTH as nat },
            confirm_password: TextBoxView {
                text: Seq::empty(),
                max_length: MAX_PASSWORD_LENGTH as nat,
            },
            error: Seq::empty(),
            focus_chain: FocusChainView { chain: field_ids(), selected: None },
        }
    }

    /// The first complaint about the form: the address comes first, then
    /// the password, then whether it was typed the same twice.
    pub open spec fn verdict(self) -> Result<(), Seq<char>> {
        if Validator::email_verdict(self.email.text) is Err {
            Validator::email_verdict(self.email.text)
        } else if Validator::password_verdict(self.password.text) is Err {
            Validator::password_verdict(self.password.text)
        } else if self.password.text != self.confirm_password.text {
            Err("Passwords don't match"@)
        } else {
            Ok(())
        }
    }

    /// The screen after a message of its own.
    pub open spec fn after(self, message: RegisterMessage) -> RegisterScreenView {
        match message {
            RegisterMessage::ChangeEmail(text) => RegisterScreenView {
                focus_chain: self.focus_chain.focus_on(Some(EMAIL_ID@)),
                email: self.email.update(text@),
                ..self
            },
            RegisterMessage::ChangePassword(text) => RegisterScreenView {
                focus_chain: self.focus_chain.focus_on(Some(PASSWORD_ID@)),
                password: self.password.update(text@),
                ..self
            },
            RegisterMessage::ChangeConfirmPassword(text) => RegisterScreenView {
                focus_chain: self.focus_chain.focus_on(Some(PASSWORD_CONFIRM_ID@)),
                confirm_password: self.confirm_password.update(text@),
                ..self
            },
            RegisterMessage::Register => match self.verdict() {
                Ok(_) => self,
                Err(complaint) => RegisterScreenView { error: complaint, ..self },
            },
            RegisterMessage::Registered(_) => self,
            RegisterMessage::UpdateError(err) => RegisterScreenView { error: err@, ..self },
        }
    }

    /// What a message of the screen's own asks for.
    pub open spec fn asks(self, message: RegisterMessage) -> Seq<ActionView> {
        match message {
            RegisterMessage::Register => match self.verdict() {
                Ok(_) => seq![
                    ActionView::Register(
                        RegisterInputView { email: self.email.text, password: self.password.text },
                    ),
                ],
                Err(_) => nothing(),
            },
            RegisterMessage::Registered(_) => seq![
                ActionView::NavigateTo(ScreenType::Login),
                ActionView::Notify {
                    message: "Registered successfully"@,
                    notification_type: NotificationType::Success,
                },
            ],
            _ => nothing(),
        }
    }

    /// The screen after any message, and what the message asks for.
    pub open spec fn step(self, message: AppMessage) -> (RegisterScreenView, Seq<ActionView>) {
        match message {
            AppMessage::RegisterMessage(m) => (self.after(m), self.asks(m)),
            AppMessage::SelectNext => (
                RegisterScreenView { focus_chain: self.focus_chain.advance(), ..self },
                focus_actions(self.focus_chain.advance().current()),
            ),
            AppMessage::SelectPrev => (
                RegisterScreenView { focus_chain: self.focus_chain.retreat(), ..self },
                focus_actions(self.focus_chain.retreat().current()),
            ),
            _ => (self, nothing()),
        }
    }
}

impl View for RegisterScreen {
    type V = RegisterScreenView;

    closed spec fn view(&self) -> RegisterScreenView {
        RegisterScreenView {
            email: self.email@,
            password: self.password@,
            confirm_password: self.confirm_password@,
            error: self.error@,
            focus_chain: self.focus_chain@,
        }
    }
}

/// The message for the outcome of registering.
pub fn map_register_result(result: Result<RegisterResult, String>) -> (r: AppMessage)
    ensures
        match result {
            Ok(RegisterResult::Registered(id)) => r == AppMessage::RegisterMessage(
                RegisterMessage::Registered(id),
            ),
            Ok(RegisterResult::BadRequest(err)) => r == AppMessage::RegisterMessage(
                RegisterMessage::UpdateError(err),
            ),
            Err(_) => r.shows("Unexpected error"@, NotificationType::Error),
        },
{
    match result {
        Ok(RegisterResult::Registered(id)) => AppMessage::RegisterMessage(
            RegisterMessage::Registered(id),
        ),
        Ok(RegisterResult::BadRequest(err)) => AppMessage::RegisterMessage(
            RegisterMessage::UpdateError(err),
        ),
        Err(_) => show_notification("Unexpected error".to_owned(), NotificationType::Error),
    }
}

impl RegisterScreen {
    /// The screen as it is first shown.
    pub fn new() -> (r: Self)
        ensures
            r@ == RegisterScreenView::initial(),
    {
        proof {
            reveal_strlit("");
            assert(""@ =~= Seq::<char>::empty());
        }
        let fields = vec![EMAIL_ID, PASSWORD_ID, PASSWORD_CONFIRM_ID];
        assert(ids_of(fields@) =~= seq![EMAIL_ID@, PASSWORD_ID@, PASSWORD_CONFIRM_ID@]);
        Self {
            email: TextBox::new("", MAX_EMAIL_LENGTH),
            password: TextBox::new("", MAX_PASSWORD_LENGTH),
            confirm_password: TextBox::new("", MAX_PASSWORD_LENGTH),
            error: String::new(),
            focus_chain: FocusChain::new(fields),
        }
    }

    /// The first complaint about the form, if there is one.
    pub fn validate_input(&self, global_state: &GlobalState) -> (r: Result<(), String>)
        ensures
            result_text(r) == self@.verdict(),
    {
        match global_state.validator.validate_email(self.email.get_text()) {
            Ok(()) => {},
            Err(e) => {
                return Err(e);
            },
        }
        match global_state.validator.validate_password(self.password.get_text()) {
            Ok(()) => {},
            Err(e) => {
                return Err(e);
            },
        }
        if !self.password.get_text().eq(self.confirm_password.get_text()) {
            Err("Passwords don't match".to_owned())
        } else {
            Ok(())
        }
    }

    fn register(&mut self, global_state: &GlobalState) -> (actions: Vec<Action>)
        ensures
            final(self)@ == old(self)@.after(RegisterMessage::Register),
            actions_view(actions@) == old(self)@.asks(RegisterMessage::Register),
    {
        match self.validate_input(global_state) {
            Ok(()) => {},
            Err(err) => {
                self.error = err;
                return no_actions();
            },
        }
        let input = RegisterInput {
            email: self.email.get_text().to_owned(),
            password: self.password.get_text().to_owned(),
        };
        one_action(Action::Register(input))
    }

    /// Takes a message and says what it asks for.
    pub fn update(&mut self, message: AppMessage, global_state: &GlobalState) -> (actions: Vec<
        Action,
    >)
        ensures
            final(self)@ == old(self)@.step(message).0,
            actions_view(actions@) == old(self)@.step(message).1,
    {
        match message {
            AppMessage::RegisterMessage(register_message) => match register_message {
                RegisterMessage::ChangeEmail(x) => {
                    self.focus_chain.set_focus(Some(EMAIL_ID));
                    self.email.update(x);
                    no_actions()
                },
                RegisterMessage::ChangePassword(x) => {
                    self.focus_chain.set_focus(Some(PASSWORD_ID));
                    self.password.update(x);
                    no_actions()
                },
                RegisterMessage::ChangeConfirmPassword(x) => {
                    self.focus_chain.set_focus(Some(PASSWORD_CONFIRM_ID));
                    self.confirm_password.update(x);
                    no_actions()
                },
                RegisterMessage::Register => self.register(global_state),
                RegisterMessage::Registered(_user_id) => two_actions(
                    Action::NavigateTo(ScreenType::Login),
                    Action::Notify {
                        message: "Registered successfully".to_owned(),
                        notification_type: NotificationType::Success,
                    },
                ),
                RegisterMessage::UpdateError(err) => {
                    self.error = err;
                    no_actions()
                },
            },
            AppMessage::SelectNext => {
                self.focus_chain.set_next();
                focus_on(self.focus_chain.apply_focus())
            },
            AppMessage::SelectPrev => {
                self.focus_chain.set_prev();
                focus_on(self.focus_chain.apply_focus())
            },
            _ => no_actions(),
        }
    }

    /// The complaint shown on the screen.
    pub fn error(&self) -> (r: &str)
        ensures
            r@ == self@.error,
    {
        self.error.as_str()
    }

    pub fn email(&self) -> (r: &TextBox)
        ensures
            r@ == self@.email,
    {
        &self.email
    }

    pub fn password(&self) -> (r: &TextBox)
        ensures
            r@ == self@.password,
    {
        &self.password
    }

    pub fn confirm_password(&self) -> (r: &TextBox)
        ensures
            r@ == self@.confirm_password,
    {
        &self.confirm_password
    }

    pub fn focus_chain(&self) -> (r: &FocusChain)
        ensures
            r@ == self@.focus_chain,
    {
        &self.focus_chain
    }
}

} // verus!
