//! The hotkey manager: the one stored shortcut text and the decisions of the
//! register, unregister and query operations.
//!
//! The manager never talks to the OS itself.  Each operation is split into
//! decision steps the host drives: the manager says which descriptor to clean
//! up, whether a new text is accepted, which error a failed OS step produces,
//! and what the state becomes; the host performs the OS-side calls and feeds
//! their outcomes back.  The host holds one exclusive lock around the whole
//! state for the duration of each operation, so operations serialize.

use vstd::prelude::*;

use crate::error::HotkeyError;
use crate::error::invalid_format_error;
use crate::error::invalid_format_message;
use global_hotkey::hotkey::HotKey;

verus! {

/// The OS shortcut subsystem's parsed, validated shortcut descriptor,
/// declared so it can pass through the manager; its inside stays the
/// subsystem's own.
#[verifier::external_type_specification]
#[verifier::external_body]
pub struct ExHotKey(HotKey);

/// The outcome of parsing a shortcut text: acceptance, or the parser's own
/// description of the rejection.  The accepted tokens, modifier names and
/// separators are the OS subsystem's, not this library's, so the outcome is
/// only named here; it is a function of the text alone.
pub uninterp spec fn shortcut_parse(s: Seq<char>) -> Result<(), Seq<char>>;

/// Relies on `global_hotkey::hotkey::HotKey`'s `FromStr` impl (the parser
/// behind the `Shortcut` alias of the desktop runtime's global-shortcut
/// plugin): its outcome depends on the text alone, and its error's display
/// form is the rejection detail.
#[verifier::external_body]
fn parse_shortcut(s: &str) -> (r: Result<HotKey, String>)
    ensures
        r is Ok <==> shortcut_parse(s@) is Ok,
        r matches Err(e) ==> (shortcut_parse(s@) matches Err(d) && e@ == d),
{
    match s.parse::<HotKey>() {
        Ok(hotkey) => Ok(hotkey),
        Err(e) => Err(e.to_string()),
    }
}

/// The textual form of an optional shortcut text.
pub open spec fn text_view(o: Option<String>) -> Option<Seq<char>> {
    match o {
        Some(s) => Some(s@),
        None => None,
    }
}

/// Holds the at most one currently active shortcut, as the text it was
/// registered under, or nothing.
pub struct GlobalShortcutState {
    current_shortcut: Option<String>,
}

impl View for GlobalShortcutState {
    type V = Option<Seq<char>>;

    closed spec fn view(&self) -> Option<Seq<char>> {
        text_view(self.current_shortcut)
    }
}

impl Default for GlobalShortcutState {
    fn default() -> (state: Self)
        ensures
            state@ is None,
    {
        GlobalShortcutState { current_shortcut: None }
    }
}

/// What the stored state asks of the host at the start of the unregister
/// operation.
pub enum UnregisterStart {
    /// No shortcut is stored: the operation succeeds as a no-op.
    Idle,
    /// A text is stored but the parser no longer accepts it: the text is
    /// left exactly as stored and the operation succeeds.
    Unparseable,
    /// The stored text parses to this descriptor: the host removes its
    /// handler, then unregisters it from the OS, and only on success is the
    /// state cleared.
    Proceed(HotKey),
}

impl GlobalShortcutState {
    /// A manager with no shortcut registered.
    pub fn new() -> (state: Self)
        ensures
            state@ is None,
    {
        GlobalShortcutState { current_shortcut: None }
    }

    /// The query operation: a copy of the stored shortcut text.  The error
    /// channel exists only for uniformity with the other operations; the
    /// query itself always succeeds.
    pub fn get_current_hotkey(&self) -> (r: Result<Option<String>, HotkeyError>)
        ensures
            r matches Ok(c) && text_view(c) == self@,
    {
        match &self.current_shortcut {
            Some(s) => Ok(Some(String::from_str(s.as_str()))),
            None => Ok(None),
        }
    }

    /// First step of the register operation: the descriptor of the old
    /// registration to clean up — present exactly when a shortcut is stored
    /// and its text still parses.  The host removes that descriptor's
    /// handler and unregisters it from the OS before anything else, ignoring
    /// failures: a stale prior registration must never block the new one.
    pub fn begin_register(&self) -> (cleanup: Option<HotKey>)
        ensures
            cleanup is Some <==> (self@ matches Some(prev) && shortcut_parse(prev) is Ok),
    {
        match &self.current_shortcut {
            Some(old) => match parse_shortcut(old.as_str()) {
                Ok(hotkey) => Some(hotkey),
                Err(_) => None,
            },
            None => None,
        }
    }

    /// Records a fully successful registration: both OS-side steps succeeded
    /// for `shortcut`, which becomes the stored text.
    pub fn commit_register(&mut self, shortcut: String)
        ensures
            final(self)@ == Some(shortcut@),
    {
        self.current_shortcut = Some(shortcut);
    }

    /// First step of the unregister operation: what the stored state asks of
    /// the host.
    pub fn start_unregister(&self) -> (step: UnregisterStart)
        ensures
            step is Idle <==> self@ is None,
            step is Unparseable <==> (self@ matches Some(s) && shortcut_parse(s) is Err),
            step is Proceed <==> (self@ matches Some(s) && shortcut_parse(s) is Ok),
    {
        match &self.current_shortcut {
            Some(stored) => match parse_shortcut(stored.as_str()) {
                Ok(hotkey) => UnregisterStart::Proceed(hotkey),
                Err(_) => UnregisterStart::Unparseable,
            },
            None => UnregisterStart::Idle,
        }
    }

    /// Records a completed unregistration: nothing is stored any more.
    pub fn commit_unregister(&mut self)
        ensures
            final(self)@ is None,
    {
        self.current_shortcut = None;
    }
}

/// Parses a caller-supplied shortcut text into the OS subsystem's
/// descriptor.  A rejection carries the error the register operation
/// returns, with the parser's detail after the fixed prefix.
pub fn parse_new_shortcut(shortcut: &str) -> (r: Result<HotKey, HotkeyError>)
    ensures
        r is Ok <==> shortcut_parse(shortcut@) is Ok,
        r matches Err(e) ==> (shortcut_parse(shortcut@) matches Err(d) && e@ == invalid_format_message(d)),
{
    match parse_shortcut(shortcut) {
        Ok(hotkey) => Ok(hotkey),
        Err(detail) => Err(invalid_format_error(detail.as_str())),
    }
}

} // verus!
