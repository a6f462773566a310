use hotel_client::components::focus_chain::FocusChain;
use hotel_client::components::notification::{Notification, NotificationMessage, NotificationType};

fn chain() -> FocusChain {
    FocusChain::new(vec!["first", "second", "third"])
}

#[test]
fn focus_chain_starts_unset() {
    let chain = chain();
    assert_eq!(chain.get_selected(), None);
    assert_eq!(chain.apply_focus(), None);
}

#[test]
fn focus_chain_finds_a_field_by_name() {
    let mut chain = chain();
    chain.set_focus(Some("second"));
    assert_eq!(chain.get_selected(), Some("second"));
    chain.set_focus(Some("missing"));
    assert_eq!(chain.get_selected(), None);
    chain.set_focus(Some("third"));
    chain.set_focus(None);
    assert_eq!(chain.get_selected(), None);
}

#[test]
fn focus_chain_picks_the_first_of_two_fields_with_one_name() {
    let mut chain = FocusChain::new(vec!["a", "b", "a"]);
    chain.set_focus(Some("a"));
    chain.set_next();
    assert_eq!(chain.get_selected(), Some("b"));
}

#[test]
fn focus_chain_wraps_around() {
    let mut chain = chain();
    chain.set_focus(Some("third"));
    chain.set_next();
    assert_eq!(chain.get_selected(), Some("first"));
    chain.set_prev();
    assert_eq!(chain.get_selected(), Some("third"));
    chain.set_prev();
    assert_eq!(chain.get_selected(), Some("second"));
    assert_eq!(chain.apply_focus(), Some("second"));
}

#[test]
fn focus_chain_next_then_previous_returns() {
    for start in ["first", "second", "third"] {
        let mut chain = chain();
        chain.set_focus(Some(start));
        chain.set_next();
        chain.set_prev();
        assert_eq!(chain.get_selected(), Some(start));
        chain.set_prev();
        chain.set_next();
        assert_eq!(chain.get_selected(), Some(start));
    }
    let mut single = FocusChain::new(vec!["only"]);
    single.set_focus(Some("only"));
    single.set_next();
    assert_eq!(single.get_selected(), Some("only"));
    single.set_prev();
    assert_eq!(single.get_selected(), Some("only"));
}

#[test]
fn focus_chain_unset_stays_unset() {
    let mut chain = chain();
    chain.set_next();
    assert_eq!(chain.get_selected(), None);
    chain.set_prev();
    assert_eq!(chain.get_selected(), None);
    assert_eq!(chain.apply_focus(), None);
}

#[test]
fn notification_is_hidden_at_first() {
    let notification = Notification::new();
    assert!(!notification.is_displayed());
    assert_eq!(notification.message(), "Hello");
    assert_eq!(notification.notification_type(), NotificationType::Information);
    assert!(!Notification::default().is_displayed());
}

#[test]
fn notification_shows_and_asks_to_be_cleared_after_four_seconds() {
    let mut notification = Notification::new();
    let delay = notification.update(NotificationMessage::ShowNotification {
        message: "Room added".to_owned(),
        notification_type: NotificationType::Success,
    });
    assert_eq!(delay, Some(4));
    assert!(notification.is_displayed());
    assert_eq!(notification.message(), "Room added");
    assert_eq!(notification.notification_type(), NotificationType::Success);
}

#[test]
fn notification_is_replaced_by_the_next_one() {
    let mut notification = Notification::new();
    notification.update(NotificationMessage::ShowNotification {
        message: "first".to_owned(),
        notification_type: NotificationType::Information,
    });
    let delay = notification.update(NotificationMessage::ShowNotification {
        message: "second".to_owned(),
        notification_type: NotificationType::Error,
    });
    assert_eq!(delay, Some(4));
    assert_eq!(notification.message(), "second");
    assert_eq!(notification.notification_type(), NotificationType::Error);
}

#[test]
fn notification_clears_at_once() {
    let mut notification = Notification::new();
    notification.update(NotificationMessage::ShowNotification {
        message: "gone soon".to_owned(),
        notification_type: NotificationType::Error,
    });
    let delay = notification.update(NotificationMessage::ClearNotification);
    assert_eq!(delay, None);
    assert!(!notification.is_displayed());
    assert_eq!(notification.message(), "gone soon");
}
