//! Which log events deserve a desktop notification. Sending the
//! notification and walking the log subscriber live outside the library;
//! the policy of what to notify about is decided here.

use vstd::prelude::*;

verus! {

/// Log severities, highest first.
#[derive(Clone, Copy, PartialEq, Eq, Structural, Debug)]
pub enum NotifyLevel {
    Error,
    Warn,
    Info,
    Debug,
    Trace,
}

/// The notification summary for a log level: errors and warnings are
/// surfaced to the user, everything quieter is not.
pub fn should_notify(level: NotifyLevel) -> (r: Option<&'static str>)
    ensures
        match level {
            NotifyLevel::Error => r matches Some(s) && s@ == "error"@,
            NotifyLevel::Warn => r matches Some(s) && s@ == "warning"@,
            _ => r is None,
        },
{
    match level {
        NotifyLevel::Error => Some("error"),
        NotifyLevel::Warn => Some("warning"),
        _ => None,
    }
}

/// Forwards notification-worthy log events to the desktop. The log
/// subscriber plumbing is outside the library; this type carries the
/// policy in [`should_notify`].
#[derive(Clone, Copy, PartialEq, Eq, Structural, Debug)]
pub struct NotificationLayer {}

impl NotificationLayer {
    pub fn new() -> (r: NotificationLayer) {
        NotificationLayer {  }
    }
}

} // verus!
