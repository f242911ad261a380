use solarity_runtime::developer_console::{
    command_reply, console_command, console_key, console_pointer_button, ConsoleCommand,
    ConsoleErrorLog, ConsoleFocus, ConsoleKey, ConsolePointerButton, ConsoleReply,
    TextureIdentityCounter, toggle_key_event,
};
use solarity_runtime::glue::MouseButton;

#[test]
fn texture_identities_start_in_the_upper_half_and_advance() {
    let mut counter = TextureIdentityCounter::new();
    assert_eq!(counter.next_texture_identity(), u64::MAX / 2);
    assert_eq!(counter.next_texture_identity(), u64::MAX / 2 + 1);
    assert_eq!(counter.next_texture_identity(), u64::MAX / 2 + 2);
}

#[test]
fn commands_are_trimmed_and_case_folded() {
    assert!(matches!(console_command("clear"), ConsoleCommand::Clear));
    assert!(matches!(console_command("  CLEAR\t"), ConsoleCommand::Clear));
    assert!(matches!(console_command("Errors"), ConsoleCommand::Errors));
    assert!(matches!(console_command("help "), ConsoleCommand::Help));
    assert!(matches!(console_command(""), ConsoleCommand::Empty));
    assert!(matches!(console_command(" \u{3000} "), ConsoleCommand::Empty));
    match console_command(" ReLoadUI ") {
        ConsoleCommand::Unknown { word } => assert_eq!(word, "reloadui"),
        other => panic!("unexpected {other:?}"),
    }
    match console_command("clear all") {
        ConsoleCommand::Unknown { word } => assert_eq!(word, "clear all"),
        other => panic!("unexpected {other:?}"),
    }
}

#[test]
fn toggle_twice_restores_visibility_and_swallows_the_key_text() {
    let mut focus = ConsoleFocus::new();
    assert!(!focus.toggle_key(true, true));
    assert!(!focus.toggle_key(false, false));
    assert!(!focus.visible);
    assert!(focus.toggle_key(true, false));
    assert!(focus.visible && focus.focus_on_next_frame && focus.ignore_toggle_text);
    assert!(!focus.text_input("`"));
    assert!(focus.text_input("`"));
    assert!(focus.take_focus_request());
    assert!(!focus.take_focus_request());
    assert!(focus.toggle_key(true, false));
    assert!(!focus.visible && !focus.focus_on_next_frame);
    assert!(focus.text_input("a"));
}

#[test]
fn error_log_counts_every_error_and_keeps_distinct_messages() {
    let mut log = ConsoleErrorLog::new();
    assert_eq!(log.record("missing texture"), Some(1));
    assert_eq!(log.record("missing texture"), None);
    assert_eq!(log.record("bad model"), Some(2));
    assert_eq!(log.error_count(), 3);
    assert_eq!(log.unique_count(), 2);
}

#[test]
fn stock_key_names_map_to_console_keys() {
    assert_eq!(console_key("ENTER"), Some(ConsoleKey::Enter));
    assert_eq!(console_key("NUMPADENTER"), Some(ConsoleKey::Enter));
    assert_eq!(console_key("PAGEDOWN"), Some(ConsoleKey::PageDown));
    assert_eq!(console_key("F7"), Some(ConsoleKey::F7));
    assert_eq!(console_key("Z"), Some(ConsoleKey::Z));
    assert_eq!(console_key("z"), None);
    assert_eq!(console_key("F8"), None);
}

#[test]
fn mouse_buttons_map_to_console_pointer_buttons() {
    assert_eq!(
        console_pointer_button(MouseButton::Left),
        Some(ConsolePointerButton::Primary)
    );
    assert_eq!(
        console_pointer_button(MouseButton::AuxiliaryTwo),
        Some(ConsolePointerButton::Extra2)
    );
    assert_eq!(console_pointer_button(MouseButton::Unknown), None);
}

#[test]
fn console_consumes_the_toggle_key_always_and_other_events_only_while_shown() {
    let mut focus = ConsoleFocus::new();
    assert!(!focus.intercept(None));
    assert!(!focus.visible);
    assert!(focus.intercept(Some((true, true))));
    assert!(!focus.visible);
    assert!(focus.intercept(Some((false, false))));
    assert!(!focus.visible);
    assert!(focus.intercept(Some((true, false))));
    assert!(focus.visible);
    assert!(focus.intercept(None));
    assert!(focus.visible);
    assert!(focus.intercept(Some((true, false))));
    assert!(!focus.visible);
    assert!(!focus.intercept(None));
}

#[test]
fn each_command_gets_its_reply() {
    let mut log = ConsoleErrorLog::new();
    log.record("a");
    log.record("a");
    log.record("b");
    assert!(matches!(command_reply(ConsoleCommand::Clear, &log), ConsoleReply::Clear));
    assert!(matches!(command_reply(ConsoleCommand::Empty, &log), ConsoleReply::Silent));
    assert!(matches!(command_reply(ConsoleCommand::Help, &log), ConsoleReply::Help));
    assert!(matches!(
        command_reply(ConsoleCommand::Errors, &log),
        ConsoleReply::ErrorSummary { count: 3, unique: 2 }
    ));
    match command_reply(console_command(" Dance "), &log) {
        ConsoleReply::Unknown { word } => assert_eq!(word, "dance"),
        other => panic!("unexpected {other:?}"),
    }
}

#[test]
fn only_the_backquote_key_on_the_console_window_toggles() {
    assert_eq!(toggle_key_event(true, Some("`"), true, false), Some((true, false)));
    assert_eq!(toggle_key_event(false, Some("`"), true, false), None);
    assert_eq!(toggle_key_event(true, Some("~"), true, false), None);
    assert_eq!(toggle_key_event(true, None, true, false), None);
}
