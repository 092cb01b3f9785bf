use hecto::{Editor, InputEvent, Key, KeyPress, Modifiers, ScreenPosition, Size, View};
use std::io::{Error, ErrorKind};

const NONE: Modifiers = Modifiers { shift: false, control: false, alt: false, other: false };
const CONTROL: Modifiers = Modifiers { shift: false, control: true, alt: false, other: false };
const TERMINAL: Size = Size { width: 80, height: 24 };

fn press(key: Key) -> InputEvent {
    InputEvent::Key(KeyPress { key, modifiers: NONE, pressed: true })
}

fn caret(col: usize, row: usize) -> ScreenPosition {
    ScreenPosition { col, row }
}

fn editor() -> Editor {
    Editor::new(TERMINAL, None)
}

#[test]
fn new_editor_has_the_caret_at_the_origin() {
    let editor = editor();
    assert!(!editor.is_quit());
    assert_eq!(editor.caret(), caret(0, 0));
    assert_eq!(editor.viewport().size(), TERMINAL);
    assert!(editor.viewport().needs_redraw());
}

#[test]
fn new_editor_over_a_file_shows_its_text() {
    let mut editor = Editor::new(Size { width: 8, height: 3 }, Some(Ok("ab\nc".to_string())));
    let frame = editor.refresh_screen();
    assert_eq!(frame.rows, vec!["ab", "c", "~"]);
    assert_eq!(frame.caret, caret(0, 0));
}

#[test]
fn new_editor_over_a_file_that_could_not_be_read_shows_the_welcome_row() {
    let failed = Some(Err(Error::new(ErrorKind::NotFound, "no such file")));
    let mut editor = Editor::new(Size { width: 40, height: 3 }, failed);
    let frame = editor.refresh_screen();
    assert_eq!(frame.rows, vec!["~".to_string(), View::welcome_msg(40), "~".to_string()]);
}

#[test]
fn refresh_paints_once() {
    let mut editor = Editor::new(Size { width: 8, height: 2 }, Some(Ok("ab".to_string())));
    assert_eq!(editor.refresh_screen().rows, vec!["ab", "~"]);
    let again = editor.refresh_screen();
    assert_eq!(again.rows, Vec::<String>::new());
    assert_eq!(again.caret, caret(0, 0));
}

#[test]
fn control_q_pressed_ends_the_session() {
    let mut editor = editor();
    let quit = InputEvent::Key(KeyPress { key: Key::Char('q'), modifiers: CONTROL, pressed: true });
    editor.evaluate_event(quit, TERMINAL);
    assert!(editor.is_quit());
    assert_eq!(editor.caret(), caret(0, 0));
}

#[test]
fn control_q_let_go_does_not_end_the_session() {
    let mut editor = editor();
    let released =
        InputEvent::Key(KeyPress { key: Key::Char('q'), modifiers: CONTROL, pressed: false });
    editor.evaluate_event(released, TERMINAL);
    assert!(!editor.is_quit());
    editor.evaluate_event(press(Key::Char('q')), TERMINAL);
    assert!(!editor.is_quit());
}

#[test]
fn arrow_keys_move_the_caret() {
    let mut editor = editor();
    editor.evaluate_event(press(Key::Right), TERMINAL);
    editor.evaluate_event(press(Key::Right), TERMINAL);
    editor.evaluate_event(press(Key::Down), TERMINAL);
    assert_eq!(editor.caret(), caret(2, 1));
    editor.evaluate_event(press(Key::Left), TERMINAL);
    editor.evaluate_event(press(Key::Up), TERMINAL);
    assert_eq!(editor.caret(), caret(1, 0));
    editor.evaluate_event(press(Key::Left), TERMINAL);
    editor.evaluate_event(press(Key::Left), TERMINAL);
    editor.evaluate_event(press(Key::Up), TERMINAL);
    assert_eq!(editor.caret(), caret(0, 0));
}

#[test]
fn keys_let_go_do_not_move_the_caret() {
    let mut editor = editor();
    let released = InputEvent::Key(KeyPress { key: Key::Right, modifiers: NONE, pressed: false });
    editor.evaluate_event(released, TERMINAL);
    assert_eq!(editor.caret(), caret(0, 0));
}

#[test]
fn down_stops_at_the_last_row() {
    let mut editor = editor();
    let terminal = Size { width: 10, height: 3 };
    for _ in 0..5 {
        editor.move_caret(Key::Down, terminal);
    }
    assert_eq!(editor.caret(), caret(0, 2));
    editor.move_caret(Key::Down, Size { width: 10, height: 0 });
    assert_eq!(editor.caret(), caret(0, 0));
}

#[test]
fn right_is_not_stopped_by_the_width() {
    let mut editor = editor();
    let terminal = Size { width: 3, height: 3 };
    for _ in 0..5 {
        editor.move_caret(Key::Right, terminal);
    }
    assert_eq!(editor.caret(), caret(5, 0));
}

#[test]
fn page_and_line_keys_go_to_the_edges() {
    let mut editor = editor();
    editor.move_caret(Key::PageDown, TERMINAL);
    assert_eq!(editor.caret(), caret(0, 23));
    editor.move_caret(Key::End, TERMINAL);
    assert_eq!(editor.caret(), caret(79, 23));
    editor.move_caret(Key::PageUp, TERMINAL);
    assert_eq!(editor.caret(), caret(79, 0));
    editor.move_caret(Key::Home, TERMINAL);
    assert_eq!(editor.caret(), caret(0, 0));
    let none = Size { width: 0, height: 0 };
    editor.move_caret(Key::PageDown, none);
    editor.move_caret(Key::End, none);
    assert_eq!(editor.caret(), caret(0, 0));
}

#[test]
fn other_keys_and_events_change_nothing() {
    let mut editor = editor();
    editor.move_caret(Key::Right, TERMINAL);
    editor.move_caret(Key::Other, TERMINAL);
    editor.move_caret(Key::Char('x'), TERMINAL);
    editor.evaluate_event(press(Key::Char('x')), TERMINAL);
    editor.evaluate_event(InputEvent::Other, TERMINAL);
    assert_eq!(editor.caret(), caret(1, 0));
    assert!(!editor.is_quit());
}

#[test]
fn resize_event_goes_to_the_view() {
    let mut editor = Editor::new(Size { width: 8, height: 2 }, Some(Ok("abcdef".to_string())));
    let _ = editor.refresh_screen();
    editor.evaluate_event(InputEvent::Resize(3, 1), TERMINAL);
    assert_eq!(editor.viewport().size(), Size { width: 3, height: 1 });
    assert!(editor.viewport().needs_redraw());
    assert_eq!(editor.refresh_screen().rows, vec!["abc"]);
}
