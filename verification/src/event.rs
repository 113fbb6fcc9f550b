//! Bridging OS-level press/release notifications to application events.

use vstd::prelude::*;

verus! {

/// The two notifications the OS subsystem reports for a registered
/// shortcut: key-down and key-up.
#[derive(Clone, Copy, Debug, PartialEq, Eq, Structural)]
pub enum ShortcutNotification {
    Pressed,
    Released,
}

/// The name of the application event to broadcast for one notification:
/// exactly one event per notification, `"hotkey-pressed"` for a press and
/// `"hotkey-released"` for a release, each with no payload.
pub fn event_name(notification: ShortcutNotification) -> (name: &'static str)
    ensures
        notification is Pressed ==> name@ == "hotkey-pressed"@,
        notification is Released ==> name@ == "hotkey-released"@,
{
    match notification {
        ShortcutNotification::Pressed => "hotkey-pressed",
        ShortcutNotification::Released => "hotkey-released",
    }
}

} // verus!
