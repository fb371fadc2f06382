use zino::notification::{Notification, NotificationProps};

#[test]
fn default_notification_is_hidden() {
    let props = NotificationProps::default();
    let layout = Notification(&props);
    assert_eq!(layout.classes, vec!["notification".to_string(), "is-hidden".to_string()]);
    assert_eq!(layout.close_button, None);
    assert_eq!(layout.class_attribute(), "notification is-hidden");
}

#[test]
fn colored_themed_visible_notification() {
    let props = NotificationProps {
        color: "danger".to_string(),
        theme: "light".to_string(),
        visible: true,
        closable: true,
        ..NotificationProps::default()
    };
    let layout = Notification(&props);
    assert_eq!(layout.class_attribute(), "notification is-danger is-light");
    assert_eq!(layout.close_button, Some("delete".to_string()));
}
