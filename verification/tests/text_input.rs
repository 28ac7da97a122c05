use chatui::events::{AppEvent, InputEvent};
use chatui::keys::{KeyCode, KeyPress};
use chatui::text_input::TextInput;

#[test]
fn test_default_text_input() {
    let text_input = TextInput::new();

    assert_eq!(text_input.focus, false);
    assert_eq!(text_input.editor.text.len(), 0);
    assert_eq!(text_input.placeholder, TextInput::default_placeholder());
    assert_eq!(text_input.editor.cur_pos, 0);
}

#[test]
fn test_text_input_with_placeholder() {
    let ph = String::from("");
    let text_input = TextInput::with_placeholder(ph.to_owned());

    assert_eq!(text_input.focus, false);
    assert_eq!(text_input.editor.text.len(), 0);
    assert_eq!(text_input.placeholder, ph);
    assert_eq!(text_input.editor.cur_pos, 0);
}

#[test]
fn test_text_input_with_text() {
    let text = String::from("sample text");
    let text_input = TextInput::with_text(text.to_owned());

    assert_eq!(text_input.focus, false);
    assert_eq!(text_input.get_text().len(), text.len());
    assert_eq!(text_input.get_text(), text);
    assert_eq!(text_input.editor.cur_pos, 0);
}

#[test]
fn test_get_text_multibyte() {
    // the text survives the byte round trip unchanged
    let text = String::from("नमुना मजकूर");
    let text_input = TextInput::with_text(text.to_owned());

    assert_eq!(text_input.get_text(), text);
}

#[test]
fn test_unfocused_consumes_nothing() {
    let mut text_input = TextInput::with_text(String::from("abc"));

    let ke = AppEvent::InputEvent(InputEvent::Key(KeyPress::from_code(KeyCode::Char('x'))));
    assert_eq!(text_input.event(ke), Ok(false));
    assert_eq!(text_input.get_text(), "abc");

    text_input.set_focus(true);
    assert_eq!(text_input.event(ke), Ok(true));
    assert_eq!(text_input.get_text(), "xabc");
}

#[test]
fn test_set_text_and_clear() {
    let mut text_input = TextInput::new();
    text_input.set_text(String::from("demo"));
    assert_eq!(text_input.get_text(), "demo");
    assert_eq!(text_input.editor.cur_pos, 0);

    text_input.clear();
    assert_eq!(text_input.get_text(), "");
    assert_eq!(text_input.editor.cur_pos, 0);
}

#[test]
fn test_display_parts() {
    let mut text_input = TextInput::with_text(String::from("नमa"));
    assert!(TextInput::with_text(String::new()).display_parts().is_none());

    // cursor at start: nothing before, the first character under the
    // cursor, the rest after
    let (before, under, after) = text_input.display_parts().unwrap();
    assert_eq!(before, "");
    assert_eq!(under, "न");
    assert_eq!(after, "मa");

    // cursor at the end: a plain space stands in for the cursor cell
    text_input.editor.end();
    let (before, under, after) = text_input.display_parts().unwrap();
    assert_eq!(before, "नमa");
    assert_eq!(under, " ");
    assert_eq!(after, "");
}
