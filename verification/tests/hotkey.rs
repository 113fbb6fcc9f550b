use global_shortcut::error::HotkeyError;
use global_shortcut::error::invalid_format_error;
use global_shortcut::error::register_failed_error;
use global_shortcut::error::remove_handler_error;
use global_shortcut::error::unregister_failed_error;
use global_shortcut::event::ShortcutNotification;
use global_shortcut::event::event_name;
use global_shortcut::manager::GlobalShortcutState;
use global_shortcut::manager::UnregisterStart;
use global_shortcut::manager::parse_new_shortcut;

#[test]
fn new_state_has_no_shortcut() {
    let state = GlobalShortcutState::new();
    assert_eq!(state.get_current_hotkey().unwrap(), None);
}

#[test]
fn default_state_has_no_shortcut() {
    let state = GlobalShortcutState::default();
    assert_eq!(state.get_current_hotkey().unwrap(), None);
}

#[test]
fn register_then_query_returns_it() {
    let mut state = GlobalShortcutState::new();
    assert!(state.begin_register().is_none());
    let parsed = parse_new_shortcut("Ctrl+Shift+K");
    assert!(parsed.is_ok());
    state.commit_register(String::from("Ctrl+Shift+K"));
    assert_eq!(
        state.get_current_hotkey().unwrap(),
        Some(String::from("Ctrl+Shift+K"))
    );
}

#[test]
fn accelerator_style_text_is_accepted() {
    assert!(parse_new_shortcut("CommandOrControl+Shift+K").is_ok());
}

#[test]
fn unregister_when_idle_is_noop() {
    let mut state = GlobalShortcutState::new();
    assert!(matches!(state.start_unregister(), UnregisterStart::Idle));
    state.commit_unregister();
    assert_eq!(state.get_current_hotkey().unwrap(), None);
}

#[test]
fn reregister_replaces_the_stored_text() {
    let mut state = GlobalShortcutState::new();
    let first = parse_new_shortcut("Ctrl+Shift+K");
    assert!(first.is_ok());
    state.commit_register(String::from("Ctrl+Shift+K"));

    // The second registration first asks for the old one to be cleaned up.
    let cleanup = state.begin_register();
    assert!(cleanup.is_some());
    let second = parse_new_shortcut("Alt+F4");
    assert!(second.is_ok());
    state.commit_register(String::from("Alt+F4"));

    assert_eq!(
        state.get_current_hotkey().unwrap(),
        Some(String::from("Alt+F4"))
    );
}

#[test]
fn invalid_text_is_rejected_with_prefix() {
    let state = GlobalShortcutState::new();
    let parsed = parse_new_shortcut("not a valid shortcut");
    match parsed {
        Ok(_) => panic!("the parser accepted an invalid text"),
        Err(e) => {
            assert!(e.message().starts_with("Invalid shortcut format: "));
        }
    }
    // The state was never touched: still no shortcut.
    assert_eq!(state.get_current_hotkey().unwrap(), None);
}

#[test]
fn rejection_keeps_the_parser_detail() {
    let err = parse_new_shortcut("not a valid shortcut").err().unwrap();
    let msg = err.message();
    assert!(msg.len() > "Invalid shortcut format: ".len());
}

#[test]
fn press_and_release_each_map_to_one_event() {
    assert_eq!(event_name(ShortcutNotification::Pressed), "hotkey-pressed");
    assert_eq!(event_name(ShortcutNotification::Released), "hotkey-released");
    assert_ne!(
        event_name(ShortcutNotification::Pressed),
        event_name(ShortcutNotification::Released)
    );
}

#[test]
fn unregister_leaves_an_unparseable_text_stored() {
    let mut state = GlobalShortcutState::new();
    state.commit_register(String::from("no longer a shortcut"));
    assert!(matches!(
        state.start_unregister(),
        UnregisterStart::Unparseable
    ));
    // The host performs no OS step and does not clear the state.
    assert_eq!(
        state.get_current_hotkey().unwrap(),
        Some(String::from("no longer a shortcut"))
    );
}

#[test]
fn unregister_of_a_parseable_text_proceeds_then_clears() {
    let mut state = GlobalShortcutState::new();
    state.commit_register(String::from("Ctrl+Shift+K"));
    assert!(matches!(
        state.start_unregister(),
        UnregisterStart::Proceed(_)
    ));
    state.commit_unregister();
    assert_eq!(state.get_current_hotkey().unwrap(), None);
}

#[test]
fn begin_register_skips_cleanup_of_an_unparseable_text() {
    let mut state = GlobalShortcutState::new();
    state.commit_register(String::from("no longer a shortcut"));
    assert!(state.begin_register().is_none());
}

#[test]
fn error_messages_carry_their_fixed_prefix() {
    assert_eq!(
        invalid_format_error("boom").message().as_str(),
        "Invalid shortcut format: boom"
    );
    assert_eq!(
        register_failed_error("boom").message().as_str(),
        "Failed to register shortcut: boom"
    );
    assert_eq!(
        remove_handler_error("boom").message().as_str(),
        "Failed to remove handler: boom"
    );
    assert_eq!(
        unregister_failed_error("boom").message().as_str(),
        "Failed to unregister: boom"
    );
}

#[test]
fn error_keeps_its_message() {
    let err = HotkeyError::new(String::from("anything at all"));
    assert_eq!(err.message().as_str(), "anything at all");
}
