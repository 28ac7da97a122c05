use chatui::application::{Application, DispatchOutcome};
use chatui::events::{event_or_empty, poll_timeout_ms, AppEvent, InputEvent, Notification};
use chatui::keys::{CommandKeys, KeyCode, KeyPress, Modifiers};
use chatui::userinfo::UserInfo;

fn key(code: KeyCode) -> AppEvent {
    AppEvent::InputEvent(InputEvent::Key(KeyPress::from_code(code)))
}

#[test]
fn test_quit_key_sets_flag() {
    let mut app = Application::new(None);
    assert!(!app.is_quit());

    let quit = AppEvent::InputEvent(InputEvent::Key(KeyPress::new(
        KeyCode::Char('c'),
        Modifiers::control(),
    )));
    assert_eq!(app.event(quit), DispatchOutcome::Handled);
    assert!(app.is_quit());
}

#[test]
fn test_overlay_active_until_saved_notification() {
    // the overlay takes the keys while it exists; the saved
    // notification closes it and asks for a refresh; afterwards keys
    // reach the main screen's message input
    let mut app = Application::new(None);
    assert!(app.user_registration.is_some());

    assert_eq!(app.event(key(KeyCode::Char('A'))), DispatchOutcome::Handled);
    assert_eq!(app.user_registration.as_ref().unwrap().name.get_text(), "A");
    assert_eq!(app.ui.message_input.get_text(), "");

    let saved = AppEvent::NotificationEvent(Notification::UserInfoSaved);
    assert_eq!(app.event(saved), DispatchOutcome::Refresh);
    assert!(app.user_registration.is_none());

    let mut info = UserInfo::new();
    info.user_name = String::from("Alice");
    info.user_id = String::from("alice-01");
    app.set_user_info(info);
    assert_eq!(app.ui.user_info.user_name, "Alice");

    assert_eq!(app.event(key(KeyCode::Char('h'))), DispatchOutcome::Handled);
    assert_eq!(app.ui.message_input.get_text(), "h");
}

#[test]
fn test_main_active_from_start_with_record() {
    let mut info = UserInfo::new();
    info.user_name = String::from("Bob");
    let mut app = Application::new(Some(info));
    assert!(app.user_registration.is_none());
    assert_eq!(app.ui.user_info.user_name, "Bob");

    assert_eq!(app.event(key(KeyCode::Char('y'))), DispatchOutcome::Handled);
    assert_eq!(app.ui.message_input.get_text(), "y");
}

#[test]
fn test_save_request_reaches_the_top() {
    let keys = CommandKeys::default();
    let mut app = Application::new(None);

    for c in "Alice".chars() {
        app.event(key(KeyCode::Char(c)));
    }
    // the generated userid is already non-blank, so commit requests a
    // save at the dispatcher level
    let save = AppEvent::InputEvent(InputEvent::Key(keys.save));
    assert_eq!(app.event(save), DispatchOutcome::SaveRequest);
}

#[test]
fn test_resize_is_consumed() {
    let mut app = Application::new(None);
    let resize = AppEvent::InputEvent(InputEvent::Resize(80, 24));
    assert_eq!(app.event(resize), DispatchOutcome::Handled);
}

#[test]
fn test_other_notification_not_handled() {
    let mut app = Application::new(None);
    let joined = AppEvent::NotificationEvent(Notification::UserJoined);
    assert_eq!(app.event(joined), DispatchOutcome::NotHandled);
    assert!(app.user_registration.is_some());
}

#[test]
fn test_empty_event_not_handled() {
    let mut app = Application::new(None);
    assert_eq!(app.event(AppEvent::Empty), DispatchOutcome::NotHandled);
}

#[test]
fn test_command_bar_contents() {
    let app = Application::new(None);
    let commands = app.current_commands();
    assert_eq!(commands.len(), 5);
    assert_eq!(commands[0].label, "Quit [^c]");
    assert!(commands[0].enable);
    assert_eq!(commands[4].label, "Save [⏎]");

    let app = Application::new(Some(UserInfo::new()));
    let commands = app.current_commands();
    assert_eq!(commands.len(), 1);
    assert_eq!(commands[0].label, "Quit [^c]");
}

#[test]
fn test_event_or_empty() {
    // the multiplexer's disconnection rule: a closed channel becomes
    // the empty event
    let e = AppEvent::NotificationEvent(Notification::UserJoined);
    assert_eq!(event_or_empty(Some(e)), e);
    assert_eq!(event_or_empty(None), AppEvent::Empty);
}

#[test]
fn test_poll_timeout() {
    assert_eq!(poll_timeout_ms(200, 0), 200);
    assert_eq!(poll_timeout_ms(200, 50), 150);
    assert_eq!(poll_timeout_ms(200, 200), 0);
    assert_eq!(poll_timeout_ms(200, 1000), 0);
}
