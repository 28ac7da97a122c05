use chatui::events::{AppEvent, InputEvent};
use chatui::keys::{CommandKeys, KeyCode, KeyPress};
use chatui::user_registration::{RegOutcome, UserRegistration};
use chatui::validation::{validate, FieldIssue};

fn key(code: KeyCode) -> AppEvent {
    AppEvent::InputEvent(InputEvent::Key(KeyPress::from_code(code)))
}

fn press(reg: &mut UserRegistration, keys: &CommandKeys, ev: AppEvent) -> RegOutcome {
    reg.event(keys, ev)
}

#[test]
fn test_new_form_state() {
    let reg = UserRegistration::new();

    assert!(reg.is_focus());
    assert!(reg.name.focus);
    assert!(!reg.userid.focus);
    assert_eq!(reg.name.get_text(), "");
    // the suggested id is non-blank
    assert!(reg.userid.get_text().trim().len() > 0);
    assert_eq!(reg.error_message().unwrap(), "Please enter name");
}

#[test]
fn test_focus_chain_exclusive_rotation() {
    // exactly one field reports focus at any time, and focus advance
    // exactly rotates which one
    let keys = CommandKeys::default();
    let mut reg = UserRegistration::new();

    assert!(reg.name.focus != reg.userid.focus);
    assert!(reg.name.focus);

    let tab = AppEvent::InputEvent(InputEvent::Key(keys.focus_next));
    assert_eq!(press(&mut reg, &keys, tab), RegOutcome::Handled);
    assert!(reg.name.focus != reg.userid.focus);
    assert!(reg.userid.focus);

    assert_eq!(press(&mut reg, &keys, tab), RegOutcome::Handled);
    assert!(reg.name.focus != reg.userid.focus);
    assert!(reg.name.focus);
}

#[test]
fn test_validation_missing_name() {
    // a blank name is reported whatever the id holds
    assert_eq!(validate("", ""), Some(FieldIssue::MissingName));
    assert_eq!(validate("", "someid"), Some(FieldIssue::MissingName));
    assert_eq!(validate("   ", "someid"), Some(FieldIssue::MissingName));
    assert_eq!(validate(" \t\u{00A0}\u{3000} ", "someid"), Some(FieldIssue::MissingName));
}

#[test]
fn test_validation_missing_userid() {
    assert_eq!(validate("alice", ""), Some(FieldIssue::MissingUserId));
    assert_eq!(validate("alice", " \u{2003} "), Some(FieldIssue::MissingUserId));
}

#[test]
fn test_validation_passes() {
    assert_eq!(validate("alice", "id-1"), None);
    assert_eq!(validate(" a ", " b "), None);
}

#[test]
fn test_error_messages() {
    let keys = CommandKeys::default();
    let mut reg = UserRegistration::new();
    assert_eq!(reg.error_message().unwrap(), "Please enter name");

    // fill the name, blank the id: the id is now the missing field
    for c in "Alice".chars() {
        press(&mut reg, &keys, key(KeyCode::Char(c)));
    }
    let tab = AppEvent::InputEvent(InputEvent::Key(keys.focus_next));
    let clear = AppEvent::InputEvent(InputEvent::Key(keys.clear));
    press(&mut reg, &keys, tab);
    press(&mut reg, &keys, clear);
    assert_eq!(reg.error_message().unwrap(), "Please enter userid");

    // regenerate the id: the form becomes valid
    let next = AppEvent::InputEvent(InputEvent::Key(keys.next));
    press(&mut reg, &keys, next);
    assert_eq!(reg.error_message(), None);
}

#[test]
fn test_clear_key_clears_focused_field() {
    let keys = CommandKeys::default();
    let mut reg = UserRegistration::edit(String::from("Alice"));
    let clear = AppEvent::InputEvent(InputEvent::Key(keys.clear));

    assert_eq!(press(&mut reg, &keys, clear), RegOutcome::Handled);
    assert_eq!(reg.name.get_text(), "");
    assert!(reg.userid.get_text().len() > 0);
}

#[test]
fn test_commit_scenario() {
    // with both fields blank the commit key is consumed, no save is
    // requested, and the message is unchanged; once both fields are
    // filled the commit key requests the save, exactly once
    let keys = CommandKeys::default();
    let mut reg = UserRegistration::new();
    let tab = AppEvent::InputEvent(InputEvent::Key(keys.focus_next));
    let clear = AppEvent::InputEvent(InputEvent::Key(keys.clear));
    let save = AppEvent::InputEvent(InputEvent::Key(keys.save));

    press(&mut reg, &keys, tab);
    press(&mut reg, &keys, clear);
    assert_eq!(reg.error_message().unwrap(), "Please enter name");

    let mut save_requests: usize = 0;
    if press(&mut reg, &keys, save) == RegOutcome::SaveRequest {
        save_requests += 1;
    }
    assert_eq!(save_requests, 0);
    assert_eq!(reg.error_message().unwrap(), "Please enter name");

    // fill both fields
    press(&mut reg, &keys, tab);
    for c in "Alice".chars() {
        assert_eq!(press(&mut reg, &keys, key(KeyCode::Char(c))), RegOutcome::Handled);
    }
    press(&mut reg, &keys, tab);
    for c in "alice-01".chars() {
        assert_eq!(press(&mut reg, &keys, key(KeyCode::Char(c))), RegOutcome::Handled);
    }
    assert_eq!(reg.error_message(), None);

    if press(&mut reg, &keys, save) == RegOutcome::SaveRequest {
        save_requests += 1;
    }
    assert_eq!(save_requests, 1);
    assert_eq!(reg.name.get_text(), "Alice");
}

#[test]
fn test_unfocused_form_consumes_nothing() {
    let keys = CommandKeys::default();
    let mut reg = UserRegistration::new();
    reg.set_focus(false);

    let save = AppEvent::InputEvent(InputEvent::Key(keys.save));
    assert_eq!(press(&mut reg, &keys, save), RegOutcome::NotHandled);
}

#[test]
fn test_regenerated_userid_is_non_blank() {
    let keys = CommandKeys::default();
    let mut reg = UserRegistration::new();
    let next = AppEvent::InputEvent(InputEvent::Key(keys.next));

    for _ in 0..5 {
        assert_eq!(press(&mut reg, &keys, next), RegOutcome::Handled);
        assert!(reg.userid.get_text().trim().len() > 0);
    }
}

#[test]
fn test_form_commands() {
    let keys = CommandKeys::default();
    let mut reg = UserRegistration::new();

    let commands = reg.get_commands();
    assert_eq!(commands.len(), 4);
    assert_eq!(commands[0].label, "Focus Next [⇥]");
    assert!(commands[0].enable);
    assert_eq!(commands[1].label, "Clear [^r]");
    assert!(commands[1].enable);
    assert_eq!(commands[2].label, "Next [^n]");
    assert!(!commands[2].enable);
    assert_eq!(commands[3].label, "Save [⏎]");
    assert!(!commands[3].enable);

    // focus the id field: regenerate becomes available
    let tab = AppEvent::InputEvent(InputEvent::Key(keys.focus_next));
    press(&mut reg, &keys, tab);
    let commands = reg.get_commands();
    assert!(commands[2].enable);
}
