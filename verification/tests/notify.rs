//! The notification policy.

use whisp::notify::{should_notify, NotificationLayer, NotifyLevel};

#[test]
fn only_errors_and_warnings_notify() {
    assert_eq!(should_notify(NotifyLevel::Error), Some("error"));
    assert_eq!(should_notify(NotifyLevel::Warn), Some("warning"));
    assert_eq!(should_notify(NotifyLevel::Info), None);
    assert_eq!(should_notify(NotifyLevel::Debug), None);
    assert_eq!(should_notify(NotifyLevel::Trace), None);
}

#[test]
fn layer_constructs() {
    let _layer = NotificationLayer::new();
}
