//! The one error value the hotkey manager returns to its callers: a
//! human-readable message assembled at the failure site, with a fixed prefix
//! per call site.

use vstd::prelude::*;

verus! {

/// A user-facing error describing what the OS shortcut subsystem or its
/// parser rejected.
#[derive(Debug)]
pub struct HotkeyError {
    message: String,
}

impl View for HotkeyError {
    type V = Seq<char>;

    closed spec fn view(&self) -> Seq<char> {
        self.message@
    }
}

impl HotkeyError {
    pub fn new(message: String) -> (e: Self)
        ensures
            e@ == message@,
    {
        HotkeyError { message }
    }

    /// The message, for display at the call boundary.
    pub fn message(&self) -> (m: &String)
        ensures
            m@ == self@,
    {
        &self.message
    }
}

/// Message of a rejection by the shortcut parser.
pub open spec fn invalid_format_message(detail: Seq<char>) -> Seq<char> {
    "Invalid shortcut format: "@ + detail
}

/// Message of a failure to install the press/release handler or to register
/// the shortcut with the OS subsystem (both failure sites share one prefix).
pub open spec fn register_failed_message(detail: Seq<char>) -> Seq<char> {
    "Failed to register shortcut: "@ + detail
}

/// Message of a failure to remove the press/release handler.
pub open spec fn remove_handler_message(detail: Seq<char>) -> Seq<char> {
    "Failed to remove handler: "@ + detail
}

/// Message of a failure to unregister the shortcut from the OS subsystem.
pub open spec fn unregister_failed_message(detail: Seq<char>) -> Seq<char> {
    "Failed to unregister: "@ + detail
}

pub fn invalid_format_error(detail: &str) -> (e: HotkeyError)
    ensures
        e@ == invalid_format_message(detail@),
{
    HotkeyError::new(String::from_str("Invalid shortcut format: ").concat(detail))
}

pub fn register_failed_error(detail: &str) -> (e: HotkeyError)
    ensures
        e@ == register_failed_message(detail@),
{
    HotkeyError::new(String::from_str("Failed to register shortcut: ").concat(detail))
}

pub fn remove_handler_error(detail: &str) -> (e: HotkeyError)
    ensures
        e@ == remove_handler_message(detail@),
{
    HotkeyError::new(String::from_str("Failed to remove handler: ").concat(detail))
}

pub fn unregister_failed_error(detail: &str) -> (e: HotkeyError)
    ensures
        e@ == unregister_failed_message(detail@),
{
    HotkeyError::new(String::from_str("Failed to unregister: ").concat(detail))
}

/// A parser rejection's message always starts with the fixed prefix, whatever
/// detail the parser reported.
pub proof fn lemma_invalid_format_prefix(detail: Seq<char>)
    ensures
        invalid_format_message(detail).take("Invalid shortcut format:"@.len() as int)
            == "Invalid shortcut format:"@,
{
    reveal_strlit("Invalid shortcut format: ");
    reveal_strlit("Invalid shortcut format:");
    assert(invalid_format_message(detail).take("Invalid shortcut format:"@.len() as int)
        =~= "Invalid shortcut format:"@);
}

} // verus!
