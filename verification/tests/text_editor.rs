use chatui::events::InputEvent;
use chatui::keys::{KeyCode, KeyPress, Modifiers};
use chatui::text_editor::TextEditor;

#[test]
fn test_char_pos_eng() {
    let mut text_editor = TextEditor::from(String::from("sample text"));

    assert_eq!(text_editor.next_char_pos(), Some(1));
    assert_eq!(text_editor.prev_char_pos(), None);

    text_editor.cur_pos = 4;
    assert_eq!(text_editor.next_char_pos(), Some(5));
    assert_eq!(text_editor.prev_char_pos(), Some(3));
}

#[test]
fn test_char_pos_marathi() {
    let mut text_editor = TextEditor::from(String::from("नमुना मजकूर"));

    assert_eq!(text_editor.next_char_pos(), Some(3));
    assert_eq!(text_editor.prev_char_pos(), None);

    text_editor.cur_pos = 6;
    assert_eq!(text_editor.next_char_pos(), Some(9));
    assert_eq!(text_editor.prev_char_pos(), Some(3));
}

#[test]
fn test_char_pos_chinese() {
    let mut text_editor = TextEditor::from(String::from("示例文本"));

    assert_eq!(text_editor.next_char_pos(), Some(3));
    assert_eq!(text_editor.prev_char_pos(), None);

    text_editor.cur_pos = 6;
    assert_eq!(text_editor.next_char_pos(), Some(9));
    assert_eq!(text_editor.prev_char_pos(), Some(3));
}

#[test]
fn test_incr_cursor() {
    let mut text_editor = TextEditor::from(String::from("नमुना मजकूर"));
    assert_eq!(text_editor.next_char_pos(), Some(3));
    assert_eq!(text_editor.prev_char_pos(), None);

    text_editor.incr_cursor();
    assert_eq!(text_editor.next_char_pos(), Some(6));
    assert_eq!(text_editor.prev_char_pos(), Some(0));

    text_editor.incr_cursor();
    assert_eq!(text_editor.next_char_pos(), Some(9));
    assert_eq!(text_editor.prev_char_pos(), Some(3));

    assert_eq!(text_editor.incr_cursor(), true);
}

#[test]
fn test_decr_cursor() {
    let mut text_editor = TextEditor::from(String::from("नमुना मजकूर"));
    text_editor.incr_cursor();
    text_editor.incr_cursor();

    text_editor.decr_cursor();
    assert_eq!(text_editor.next_char_pos(), Some(6));
    assert_eq!(text_editor.prev_char_pos(), Some(0));

    text_editor.decr_cursor();
    assert_eq!(text_editor.next_char_pos(), Some(3));
    assert_eq!(text_editor.prev_char_pos(), None);

    // no-op
    assert_eq!(text_editor.decr_cursor(), false)
}

#[test]
fn test_insert() {
    let mut text_editor = TextEditor::from(String::from("नना मजकूर"));
    assert_eq!(text_editor.cur_pos, 0);
    assert_eq!(text_editor.text.len(), 25);

    assert_eq!(text_editor.incr_cursor(), true);
    text_editor.insert('म');
    assert_eq!(text_editor.cur_pos, 6);
    assert_eq!(text_editor.text.len(), 28);

    text_editor.insert('ु');
    assert_eq!(text_editor.cur_pos, 9);
    assert_eq!(text_editor.text.len(), 31);
    assert_eq!(text_editor.text, "नमुना मजकूर".as_bytes());
}

#[test]
fn test_backspace() {
    let mut text_editor = TextEditor::from(String::from("नमुना मजकूर"));

    // no-op
    assert_eq!(text_editor.backspace(), false);

    text_editor.incr_cursor();
    text_editor.incr_cursor();

    assert_eq!(text_editor.backspace(), true);
    assert_eq!(text_editor.cur_pos, 3);
    assert_eq!(text_editor.text.len(), 28);

    assert_eq!(text_editor.backspace(), true);
    assert_eq!(text_editor.cur_pos, 0);
    assert_eq!(text_editor.text.len(), 25);
}

#[test]
fn test_home() {
    let mut text_editor = TextEditor::from(String::from("नमुना मजकूर"));

    // no-op
    assert_eq!(text_editor.home(), false);

    assert_eq!(text_editor.incr_cursor(), true);
    assert_eq!(text_editor.incr_cursor(), true);
    assert_eq!(text_editor.cur_pos, 6);
    assert_eq!(text_editor.home(), true);
    assert_eq!(text_editor.cur_pos, 0);

    // no-op again
    assert_eq!(text_editor.home(), false);
}

#[test]
fn test_end() {
    let mut text_editor = TextEditor::from(String::from("नमुना मजकूर"));

    assert_eq!(text_editor.end(), true);
    assert_eq!(text_editor.cur_pos, text_editor.text.len());

    // no-op
    assert_eq!(text_editor.end(), false);
}

#[test]
fn test_delete() {
    let mut text_editor = TextEditor::from(String::from("नमुना मजकूर"));

    assert_eq!(text_editor.incr_cursor(), true);
    assert_eq!(text_editor.incr_cursor(), true);
    assert_eq!(text_editor.incr_cursor(), true);

    assert_eq!(text_editor.delete(), true);
    assert_eq!(text_editor.text.len(), 28);

    assert_eq!(text_editor.delete(), true);
    assert_eq!(text_editor.text.len(), 25);

    assert_eq!(text_editor.end(), true);
    // no-op
    assert_eq!(text_editor.delete(), false);
}

#[test]
fn test_text_editing() {
    let mut text_editor = TextEditor::from(String::from("rigshit"));
    text_editor.end();
    text_editor.decr_cursor();
    text_editor.decr_cursor();
    text_editor.delete();
    text_editor.decr_cursor();
    text_editor.decr_cursor();
    text_editor.delete();

    assert_eq!(text_editor.text, "right".as_bytes());
}

#[test]
fn test_left_right_event() {
    let mut text_editor = TextEditor::from(String::from("नमुना मजकूर"));

    let ke_right = InputEvent::Key(KeyPress::from_code(KeyCode::Right));
    assert_eq!(text_editor.event(ke_right), Ok(true));
    assert_eq!(text_editor.event(ke_right), Ok(true));

    assert_eq!(text_editor.cur_pos, 6);

    let ke_left = InputEvent::Key(KeyPress::from_code(KeyCode::Left));
    assert_eq!(text_editor.event(ke_left), Ok(true));
    assert_eq!(text_editor.cur_pos, 3);

    assert_eq!(text_editor.event(ke_left), Ok(true));
    assert_eq!(text_editor.cur_pos, 0);

    assert_eq!(text_editor.event(ke_left), Ok(false));
}

#[test]
fn test_char_event() {
    let mut text_editor = TextEditor::new();

    let hello = String::from("Hello");
    for c in hello.chars() {
        let ke = InputEvent::Key(KeyPress::from_code(KeyCode::Char(c)));

        assert_eq!(text_editor.event(ke), Ok(true));
    }

    assert_eq!(text_editor.cur_pos, 5);
    assert_eq!(text_editor.text, hello.as_bytes());
}

#[test]
fn test_backspace_event() {
    let mut text_editor = TextEditor::from(String::from("Hello"));

    let ke_backspace = InputEvent::Key(KeyPress::from_code(KeyCode::Backspace));
    assert_eq!(text_editor.event(ke_backspace), Ok(false));

    let ke_end = InputEvent::Key(KeyPress::from_code(KeyCode::End));
    assert_eq!(text_editor.event(ke_end), Ok(true));
    assert_eq!(text_editor.event(ke_backspace), Ok(true));

    assert_eq!(text_editor.cur_pos, 4);
    assert_eq!(text_editor.text, "Hell".as_bytes());
}

#[test]
fn test_home_end_event() {
    let mut text_editor = TextEditor::from(String::from("Hello"));

    let ke_end = InputEvent::Key(KeyPress::from_code(KeyCode::End));
    assert_eq!(text_editor.event(ke_end), Ok(true));
    assert_eq!(text_editor.cur_pos, 5);

    let ke_home = InputEvent::Key(KeyPress::from_code(KeyCode::Home));
    assert_eq!(text_editor.event(ke_home), Ok(true));
    assert_eq!(text_editor.cur_pos, 0);
}

#[test]
fn test_delete_event() {
    let mut text_editor = TextEditor::from(String::from("Hello"));

    let ke_delete = InputEvent::Key(KeyPress::from_code(KeyCode::Delete));
    assert_eq!(text_editor.event(ke_delete), Ok(true));
    assert_eq!(text_editor.text, "ello".as_bytes());

    let ke_right = InputEvent::Key(KeyPress::from_code(KeyCode::Right));
    assert_eq!(text_editor.event(ke_right), Ok(true));
    assert_eq!(text_editor.event(ke_right), Ok(true));
    assert_eq!(text_editor.event(ke_right), Ok(true));
    assert_eq!(text_editor.event(ke_delete), Ok(true));
    assert_eq!(text_editor.text, "ell".as_bytes());
}

#[test]
fn test_non_consumable_event() {
    let mut text_editor = TextEditor::from(String::from("Hello"));

    let ke_ctrl = InputEvent::Key(KeyPress::new(KeyCode::Null, Modifiers::control()));
    assert_eq!(text_editor.event(ke_ctrl), Ok(false));

    let ke_alt = InputEvent::Key(KeyPress::new(
        KeyCode::Null,
        Modifiers { ctrl: false, alt: true, shift: false },
    ));
    assert_eq!(text_editor.event(ke_alt), Ok(false));

    let ke_shift = InputEvent::Key(KeyPress::new(
        KeyCode::Null,
        Modifiers { ctrl: false, alt: false, shift: true },
    ));
    assert_eq!(text_editor.event(ke_shift), Ok(false));
}

#[test]
fn test_devanagari_boundary_walk() {
    // cursor at 0: stepping probes land on 3, then 6; stepping back
    // from 6 lands on 3, and no boundary precedes 0.
    let mut text_editor = TextEditor::from(String::from("नमुना मजकूर"));

    assert_eq!(text_editor.next_char_pos(), Some(3));
    assert_eq!(text_editor.prev_char_pos(), None);

    assert!(text_editor.incr_cursor());
    assert!(text_editor.incr_cursor());
    assert_eq!(text_editor.cur_pos, 6);
    assert_eq!(text_editor.prev_char_pos(), Some(3));
}

#[test]
fn test_boundary_round_trip_probe() {
    // prev then next from a mid-buffer boundary returns to it, and the
    // other way round.
    let mut text_editor = TextEditor::from(String::from("नमुना मजकूर"));
    text_editor.cur_pos = 6;

    let prev = text_editor.prev_char_pos().unwrap();
    let mut back = TextEditor::from(String::from("नमुना मजकूर"));
    back.cur_pos = prev;
    assert_eq!(back.next_char_pos(), Some(6));

    let next = text_editor.next_char_pos().unwrap();
    let mut fwd = TextEditor::from(String::from("नमुना मजकूर"));
    fwd.cur_pos = next;
    assert_eq!(fwd.prev_char_pos(), Some(6));
}

#[test]
fn test_insert_backspace_round_trip() {
    // inserting any single character and pressing backspace restores
    // the buffer and the cursor, multi-byte scripts included.
    for c in ['a', 'é', 'म', '🙂'] {
        let mut text_editor = TextEditor::from(String::from("नमुना"));
        text_editor.incr_cursor();
        let before_text = text_editor.text.clone();
        let before_pos = text_editor.cur_pos;

        text_editor.insert(c);
        assert_eq!(text_editor.backspace(), true);

        assert_eq!(text_editor.text, before_text);
        assert_eq!(text_editor.cur_pos, before_pos);
    }
}
