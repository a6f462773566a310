//! The one message shown across the top of the window.

use vstd::prelude::*;

verus! {

/// For how many seconds a notification stays up.
pub const NOTIFICATION_TIME: u64 = 4;

#[derive(Debug, Clone, Copy, PartialEq, Eq, Structural)]
pub enum NotificationType {
    Information,
    Success,
    Error,
}

#[derive(Debug)]
pub enum NotificationMessage {
    ShowNotification { message: String, notification_type: NotificationType },
    ClearNotification,
}

impl Clone for NotificationMessage {
    fn clone(&self) -> (r: NotificationMessage)
        ensures
            r == *self,
    {
        match self {
            NotificationMessage::ShowNotification { message, notification_type } => {
                NotificationMessage::ShowNotification {
                    message: message.clone(),
                    notification_type: *notification_type,
                }
            },
            NotificationMessage::ClearNotification => NotificationMessage::ClearNotification,
        }
    }
}

/// At most one notification is up at a time: a new one takes the place of
/// the one before it.
#[derive(Debug)]
pub struct Notification {
    display: bool,
    message: String,
    notification_type: NotificationType,
}

pub struct NotificationView {
    pub display: bool,
    pub message: Seq<char>,
    pub notification_type: NotificationType,
}

impl NotificationView {
    /// The notification after a message.
    pub open spec fn update(self, message: NotificationMessage) -> NotificationView {
        match message {
            NotificationMessage::ShowNotification { message, notification_type } => NotificationView {
                display: true,
                message: message@,
                notification_type,
            },
            NotificationMessage::ClearNotification => NotificationView { display: false, ..self },
        }
    }

    /// After how many seconds the notification has to be cleared again, if a
    /// message asks for that.
    pub open spec fn clear_after(message: NotificationMessage) -> Option<u64> {
        match message {
            NotificationMessage::ShowNotification { .. } => Some(NOTIFICATION_TIME),
            NotificationMessage::ClearNotification => None,
        }
    }
}

impl View for Notification {
    type V = NotificationView;

    closed spec fn view(&self) -> NotificationView {
        NotificationView {
            display: self.display,
            message: self.message@,
            notification_type: self.notification_type,
        }
    }
}

impl Notification {
    /// A notification that is not shown.
    pub fn new() -> (r: Self)
        ensures
            r@ == (NotificationView {
                display: false,
                message: "Hello"@,
                notification_type: NotificationType::Information,
            }),
    {
        Self {
            display: false,
            message: "Hello".to_owned(),
            notification_type: NotificationType::Information,
        }
    }

    /// Shows or clears the notification. Where one is shown, the result is
    /// the number of seconds after which `ClearNotification` has to follow.
    pub fn update(&mut self, message: NotificationMessage) -> (clear_after: Option<u64>)
        ensures
            final(self)@ == old(self)@.update(message),
            clear_after == NotificationView::clear_after(message),
    {
        match message {
            NotificationMessage::ShowNotification { message, notification_type } => {
                self.display = true;
                self.message = message;
                self.notification_type = notification_type;
                Some(NOTIFICATION_TIME)
            },
            NotificationMessage::ClearNotification => {
                self.display = false;
                None
            },
        }
    }

    /// Whether the notification is up.
    pub fn is_displayed(&self) -> (r: bool)
        ensures
            r == self@.display,
    {
        self.display
    }

    /// The text of the notification.
    pub fn message(&self) -> (r: &str)
        ensures
            r@ == self@.message,
    {
        self.message.as_str()
    }

    /// The kind of the notification.
    pub fn notification_type(&self) -> (r: NotificationType)
        ensures
            r == self@.notification_type,
    {
        self.notification_type
    }
}

impl Default for Notification {
    fn default() -> (r: Self)
        ensures
            r@ == (NotificationView {
                display: false,
                message: "Hello"@,
                notification_type: NotificationType::Information,
            }),
    {
        Self::new()
    }
}

} // verus!
