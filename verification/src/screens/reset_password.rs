//! The screen that sets a new password with a one-time code.

use vstd::prelude::*;
use vstd::string::StringExecFns;
use crate::action::{
    actions_view,
    focus_actions,
    focus_on,
    no_actions,
    nothing,
    one_action,
    two_actions,
    Action,
    ActionView,
};
use crate::app::{AppMessage, GlobalState, GlobalStateView, ScreenType};
use crate::components::focus_chain::{ids_of, pairwise_distinct, FocusChain, FocusChainView};
use crate::components::notification::NotificationType;
use crate::components::text_box::text_box::{TextBox, TextBoxView, TextElement};
use crate::components::validator::Validator;
use crate::constants::MAX_PASSWORD_LENGTH;
use crate::services::reset_password::{
    ResetPasswordInput,
    ResetPasswordInputView,
    ResetPasswordResult,
};
use crate::services::send_otp::SendOtpResult;
use crate::text::{trim, trimmed};
use crate::utils::show_notification;

verus! {

#[derive(Debug, Clone)]
pub enum ResetPasswordMessage {
    ChangeOtp(String),
    ChangePassword(String),
    ChangeConfirmPassword(String),
    SetError(String),
    ResetPassword,
    ResetPasswordSuccess,
    ResendCode,
    CodeResent { email: String },
}

pub const OTP_ID: &'static str = "Reset Password OTP";

pub const NEW_PASSWORD_ID: &'static str = "Reset Password New Password";

pub const CONFIRM_PASSWORD_ID: &'static str = "Reset Password Confirm Password";

/// The most bytes in a one-time code.
pub const OTP_MAX_LENGTH: usize = 8;

pub struct ResetPasswordScreen {
    otp_input: TextBox,
    new_password_input: TextBox,
    confirm_new_password_input: TextBox,
    error: String,
    focus_chain: FocusChain,
}

pub struct ResetPasswordScreenView {
    pub otp_input: TextBoxView,
    pub new_password_input: TextBoxView,
    pub confirm_new_password_input: TextBoxView,
    pub error: Seq<char>,
    pub focus_chain: FocusChainView,
}

/// What pressing the button that resets the password comes to.
pub enum ResetAttempt {
    /// The form is not in order; this is the complaint.
    Complaint(Seq<char>),
    /// No address is remembered to reset the password for.
    NoAddress,
    /// The form is in order; this is what is sent.
    Send(ResetPasswordInputView),
}

/// What is done when no address is remembered: back to the login screen,
/// with a notification.
pub open spec fn lost_address_actions() -> Seq<ActionView> {
    seq![
        ActionView::NavigateTo(ScreenType::Login),
        ActionView::Notify {
            message: "Unexpected error"@,
            notification_type: NotificationType::Error,
        },
    ]
}

/// The fields of the screen in the order that Tab visits them.
pub open spec fn field_ids() -> Seq<Seq<char>> {
    seq![OTP_ID@, NEW_PASSWORD_ID@, CONFIRM_PASSWORD_ID@]
}

/// The screen lists no field twice.
pub proof fn lemma_field_ids_distinct()
    ensures
        pairwise_distinct(field_ids()),
{
    reveal_strlit("Reset Password OTP");
    reveal_strlit("Reset Password New Password");
    reveal_strlit("Reset Password Confirm Password");
    assert(OTP_ID@ != NEW_PASSWORD_ID@) by {
        assert(OTP_ID@.len() != NEW_PASSWORD_ID@.len());
    }
    assert(OTP_ID@ != CONFIRM_PASSWORD_ID@) by {
        assert(OTP_ID@.len() != CONFIRM_PASSWORD_ID@.len());
    }
    assert(NEW_PASSWORD_ID@ != CONFIRM_PASSWORD_ID@) by {
        assert(NEW_PASSWORD_ID@.len() != CONFIRM_PASSWORD_ID@.len());
    }
}

impl ResetPasswordScreenView {
    /// The screen as it is first shown.
    pub open spec fn initial() -> ResetPasswordScreenView {
        ResetPasswordScreenView {
            otp_input: TextBoxView { text: Seq::empty(), max_length: OTP_MAX_LENGTH as nat },
            new_password_input: TextBoxView {
                text: Seq::empty(),
                max_length: MAX_PASSWORD_LENGTH as nat,
            },
            confirm_new_password_input: TextBoxView {
                text: Seq::empty(),
                max_length: MAX_PASSWORD_LENGTH as nat,
            },
            error: Seq::empty(),
            focus_chain: FocusChainView { chain: field_ids(), selected: None },
        }
    }

    /// What an attempt to reset the password comes to: the password is
    /// looked at first, then whether it was typed the same twice, then the
    /// address, then the code, which must hold more than white space.
    pub open spec fn attempt(self, email: Option<Seq<char>>) -> ResetAttempt {
        if Validator::password_verdict(self.new_password_input.text) is Err {
            ResetAttempt::Complaint(Validator::password_verdict(self.new_password_input.text)->Err_0)
        } else if self.confirm_new_password_input.text != self.new_password_input.text {
            ResetAttempt::Complaint("Passwords don't match"@)
        } else {
            match email {
                None => ResetAttempt::NoAddress,
                Some(address) => if trimmed(self.otp_input.text).len() == 0 {
                    ResetAttempt::Complaint("Enter code sent to '"@ + address + "'"@)
                } else {
                    ResetAttempt::Send(
                        ResetPasswordInputView {
                            email: address,
                            otp: self.otp_input.text,
                            new_password: self.new_password_input.text,
                        },
                    )
                },
            }
        }
    }

    /// The screen after a message of its own.
    pub open spec fn after(self, message: ResetPasswordMessage, email: Option<Seq<char>>) -> ResetPasswordScreenView {
        match message {
            ResetPasswordMessage::ChangeOtp(text) => ResetPasswordScreenView {
                focus_chain: self.focus_chain.focus_on(Some(OTP_ID@)),
                otp_input: self.otp_input.update(text@),
                ..self
            },
            ResetPasswordMessage::ChangePassword(text) => ResetPasswordScreenView {
                focus_chain: self.focus_chain.focus_on(Some(NEW_PASSWORD_ID@)),
                new_password_input: self.new_password_input.update(text@),
                ..self
            },
            ResetPasswordMessage::ChangeConfirmPassword(text) => ResetPasswordScreenView {
                focus_chain: self.focus_chain.focus_on(Some(CONFIRM_PASSWORD_ID@)),
                confirm_new_password_input: self.confirm_new_password_input.update(text@),
                ..self
            },
            ResetPasswordMessage::ResendCode => self,
            ResetPasswordMessage::ResetPassword => match self.attempt(email) {
                ResetAttempt::Complaint(complaint) => ResetPasswordScreenView {
                    error: complaint,
                    ..self
                },
                _ => self,
            },
            ResetPasswordMessage::SetError(err) => ResetPasswordScreenView { error: err@, ..self },
            ResetPasswordMessage::CodeResent { .. } => ResetPasswordScreenView {
                error: Seq::empty(),
                ..self
            },
            ResetPasswordMessage::ResetPasswordSuccess => self,
        }
    }

    /// What a message of the screen's own asks for.
    pub open spec fn asks(self, message: ResetPasswordMessage, email: Option<Seq<char>>) -> Seq<
        ActionView,
    > {
        match message {
            ResetPasswordMessage::ResendCode => match email {
                Some(address) => seq![ActionView::ResendOtp { email: address }],
                None => lost_address_actions(),
            },
            ResetPasswordMessage::ResetPassword => match self.attempt(email) {
                ResetAttempt::Complaint(_) => nothing(),
                ResetAttempt::NoAddress => lost_address_actions(),
                ResetAttempt::Send(input) => seq![ActionView::ResetPassword(input)],
            },
            ResetPasswordMessage::CodeResent { email: address } => seq![
                ActionView::Notify {
                    message: "Code sent to '"@ + address@ + "'"@,
                    notification_type: NotificationType::Information,
                },
            ],
            ResetPasswordMessage::ResetPasswordSuccess => seq![
                ActionView::Notify {
                    message: "Password reset successful"@,
                    notification_type: NotificationType::Success,
                },
                ActionView::NavigateTo(ScreenType::Login),
            ],
            _ => nothing(),
        }
    }

    /// The screen after any message, and what the message asks for.
    pub open spec fn step(self, message: AppMessage, global: GlobalStateView) -> (
        ResetPasswordScreenView,
        Seq<ActionView>,
    ) {
        match message {
            AppMessage::ResetPasswordMessage(m) => (
                self.after(m, global.email),
                self.asks(m, global.email),
            ),
            AppMessage::SelectNext => (
                ResetPasswordScreenView { focus_chain: self.focus_chain.advance(), ..self },
                focus_actions(self.focus_chain.advance().current()),
            ),
            AppMessage::SelectPrev => (
                ResetPasswordScreenView { focus_chain: self.focus_chain.retreat(), ..self },
                focus_actions(self.focus_chain.retreat().current()),
            ),
            _ => (self, nothing()),
        }
    }
}

impl View for ResetPasswordScreen {
    type V = ResetPasswordScreenView;

    closed spec fn view(&self) -> ResetPasswordScreenView {
        ResetPasswordScreenView {
            otp_input: self.otp_input@,
            new_password_input: self.new_password_input@,
            confirm_new_password_input: self.confirm_new_password_input@,
            error: self.error@,
            focus_chain: self.focus_chain@,
        }
    }
}

/// The message for the outcome of asking for another code for `email`.
pub fn resend_completed(email: String, result: Result<SendOtpResult, String>) -> (r: AppMessage)
    ensures
        match result {
            Ok(SendOtpResult::Success) => r == AppMessage::ResetPasswordMessage(
                ResetPasswordMessage::CodeResent { email },
            ),
            Ok(SendOtpResult::BadRequest(err)) => r == AppMessage::ResetPasswordMessage(
                ResetPasswordMessage::SetError(err),
            ),
            Err(_) => r.shows("Unexpected error"@, NotificationType::Error),
        },
{
    match result {
        Ok(SendOtpResult::Success) => AppMessage::ResetPasswordMessage(
            ResetPasswordMessage::CodeResent { email },
        ),
        Ok(SendOtpResult::BadRequest(err)) => AppMessage::ResetPasswordMessage(
            ResetPasswordMessage::SetError(err),
        ),
        Err(_) => show_notification("Unexpected error".to_owned(), NotificationType::Error),
    }
}

/// The message for the outcome of resetting the password.
pub fn reset_completed(result: Result<ResetPasswordResult, String>) -> (r: AppMessage)
    ensures
        match result {
            Ok(ResetPasswordResult::PasswordReset) => r == AppMessage::ResetPasswordMessage(
                ResetPasswordMessage::ResetPasswordSuccess,
            ),
            Ok(ResetPasswordResult::BadRequest(err)) => r == AppMessage::ResetPasswordMessage(
                ResetPasswordMessage::SetError(err),
            ),
            Err(_) => r.shows("Unexpected error"@, NotificationType::Error),
        },
{
    match result {
        Ok(ResetPasswordResult::PasswordReset) => AppMessage::ResetPasswordMessage(
            ResetPasswordMessage::ResetPasswordSuccess,
        ),
        Ok(ResetPasswordResult::BadRequest(err)) => AppMessage::ResetPasswordMessage(
            ResetPasswordMessage::SetError(err),
        ),
        Err(_) => show_notification("Unexpected error".to_owned(), NotificationType::Error),
    }
}

/// The two actions for an address that is not remembered.
fn lost_address() -> (actions: Vec<Action>)
    ensures
        actions_view(actions@) == lost_address_actions(),
{
    two_actions(
        Action::NavigateTo(ScreenType::Login),
        Action::Notify {
            message: "Unexpected error".to_owned(),
            notification_type: NotificationType::Error,
        },
    )
}

impl ResetPasswordScreen {
    /// The screen as it is first shown.
    pub fn new() -> (r: Self)
        ensures
            r@ == ResetPasswordScreenView::initial(),
    {
        proof {
            reveal_strlit("");
            assert(""@ =~= Seq::<char>::empty());
        }
        let fields = vec![OTP_ID, NEW_PASSWORD_ID, CONFIRM_PASSWORD_ID];
        assert(ids_of(fields@) =~= seq![OTP_ID@, NEW_PASSWORD_ID@, CONFIRM_PASSWORD_ID@]);
        Self {
            otp_input: TextBox::new("", OTP_MAX_LENGTH),
            new_password_input: TextBox::new("", MAX_PASSWORD_LENGTH),
            confirm_new_password_input: TextBox::new("", MAX_PASSWORD_LENGTH),
            error: String::new(),
            focus_chain: FocusChain::new(fields),
        }
    }

    fn resend_code(&self, global_state: &GlobalState) -> (actions: Vec<Action>)
        ensures
            actions_view(actions@) == self@.asks(
                ResetPasswordMessage::ResendCode,
                global_state@.email,
            ),
    {
        match global_state.email() {
            Some(email) => one_action(Action::ResendOtp { email }),
            None => lost_address(),
        }
    }

    fn reset_password(&mut self, global_state: &GlobalState) -> (actions: Vec<Action>)
        ensures
            final(self)@ == old(self)@.after(
                ResetPasswordMessage::ResetPassword,
                global_state@.email,
            ),
            actions_view(actions@) == old(self)@.asks(
                ResetPasswordMessage::ResetPassword,
                global_state@.email,
            ),
    {
        let password = self.new_password_input.get_text().to_owned();
        match global_state.validator.validate_password(password.as_str()) {
            Ok(()) => {},
            Err(err) => {
                self.error = err;
                return no_actions();
            },
        }
        if !self.confirm_new_password_input.get_text().eq(password.as_str()) {
            self.error = "Passwords don't match".to_owned();
            return no_actions();
        }
        let email = match global_state.email() {
            Some(email) => email,
            None => {
                return lost_address();
            },
        };
        let otp = self.otp_input.get_text().to_owned();
        if trim(otp.as_str()).is_empty() {
            self.error = "Enter code sent to '".to_owned().concat(email.as_str()).concat("'");
            return no_actions();
        }
        let input = ResetPasswordInput { email, otp, new_password: password };
        one_action(Action::ResetPassword(input))
    }

    /// Takes a message and says what it asks for. `global_state` is read
    /// for the address that the code was sent to.
    pub fn update(&mut self, message: AppMessage, global_state: &GlobalState) -> (actions: Vec<
        Action,
    >)
        ensures
            final(self)@ == old(self)@.step(message, global_state@).0,
            actions_view(actions@) == old(self)@.step(message, global_state@).1,
    {
        match message {
            AppMessage::ResetPasswordMessage(m) => match m {
                ResetPasswordMessage::ChangeOtp(otp) => {
                    self.focus_chain.set_focus(Some(OTP_ID));
                    self.otp_input.update(otp);
                    no_actions()
                },
                ResetPasswordMessage::ChangePassword(password) => {
                    self.focus_chain.set_focus(Some(NEW_PASSWORD_ID));
                    self.new_password_input.update(password);
                    no_actions()
                },
                ResetPasswordMessage::ChangeConfirmPassword(confirm_password) => {
                    self.focus_chain.set_focus(Some(CONFIRM_PASSWORD_ID));
                    self.confirm_new_password_input.update(confirm_password);
                    no_actions()
                },
                ResetPasswordMessage::ResendCode => self.resend_code(global_state),
                ResetPasswordMessage::ResetPassword => self.reset_password(global_state),
                ResetPasswordMessage::SetError(err) => {
                    self.error = err;
                    no_actions()
                },
                ResetPasswordMessage::CodeResent { email } => {
                    self.error = String::new();
                    one_action(
                        Action::Notify {
                            message: "Code sent to '".to_owned().concat(email.as_str()).concat("'"),
                            notification_type: NotificationType::Information,
                        },
                    )
                },
                ResetPasswordMessage::ResetPasswordSuccess => two_actions(
                    Action::Notify {
                        message: "Password reset successful".to_owned(),
                        notification_type: NotificationType::Success,
                    },
                    Action::NavigateTo(ScreenType::Login),
                ),
            },
            AppMessage::SelectNext => {
                self.focus_chain.set_next();
                focus_on(self.focus_chain.apply_focus())
            },
            AppMessage::SelectPrev => {
                self.focus_chain.set_prev();
                focus_on(self.focus_chain.apply_focus())
            },
            _ => no_actions(),
        }
    }

    /// The complaint shown on the screen.
    pub fn error(&self) -> (r: &str)
        ensures
            r@ == self@.error,
    {
        self.error.as_str()
    }

    pub fn otp_input(&self) -> (r: &TextBox)
        ensures
            r@ == self@.otp_input,
    {
        &self.otp_input
    }

    pub fn new_password_input(&self) -> (r: &TextBox)
        ensures
            r@ == self@.new_password_input,
    {
        &self.new_password_input
    }

    pub fn confirm_new_password_input(&self) -> (r: &TextBox)
        ensures
            r@ == self@.confirm_new_password_input,
    {
        &self.confirm_new_password_input
    }

    pub fn focus_chain(&self) -> (r: &FocusChain)
        ensures
            r@ == self@.focus_chain,
    {
        &self.focus_chain
    }
}

} // verus!
