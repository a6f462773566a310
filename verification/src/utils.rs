//! Small helpers shared by the screens.

pub use crate::date::string_to_date;
pub use crate::services::decode_error_response;
use vstd::prelude::*;
use crate::app::AppMessage;
use crate::components::notification::{NotificationMessage, NotificationType};

verus! {

/// The message that shows a notification.
pub fn show_notification(message: String, notification_type: NotificationType) -> (r: AppMessage)
    ensures
        r == AppMessage::NotificationMessage(
            NotificationMessage::ShowNotification { message, notification_type },
        ),
        r.shows(message@, notification_type),
{
    AppMessage::NotificationMessage(
        NotificationMessage::ShowNotification { message, notification_type },
    )
}

} // verus!
