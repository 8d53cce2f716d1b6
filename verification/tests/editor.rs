use tedit::CursorPosition;
use tedit::Editor;

fn chars(s: &str) -> Vec<char> {
    s.chars().collect()
}

fn set_buffer(e: &mut Editor, lines: &[&str]) {
    e.buffer = lines.iter().map(|s| chars(s)).collect();
}

fn buffer_strings(e: &Editor) -> Vec<String> {
    e.buffer.iter().map(|l| l.iter().collect()).collect()
}

#[test]
fn new_editor_is_one_empty_line() {
    let e = Editor::new();
    assert_eq!(buffer_strings(&e), vec![String::new()]);
    assert_eq!(e.cursor_position, CursorPosition { x: 0, y: 0 });
    assert!(e.filename.is_none());
    assert!(!e.modified);
    assert_eq!(e.viewport_start, 0);
}

#[test]
fn insert_char_appends_at_end_of_line() {
    let mut e = Editor::new();
    set_buffer(&mut e, &["abc"]);
    e.cursor_position = CursorPosition { x: 3, y: 0 };
    e.insert_char('d');
    assert_eq!(buffer_strings(&e), vec!["abcd".to_string()]);
    assert_eq!(e.cursor_position, CursorPosition { x: 4, y: 0 });
}

#[test]
fn insert_char_in_middle() {
    let mut e = Editor::new();
    set_buffer(&mut e, &["ac"]);
    e.cursor_position = CursorPosition { x: 1, y: 0 };
    e.insert_char('b');
    assert_eq!(buffer_strings(&e), vec!["abc".to_string()]);
    assert_eq!(e.cursor_position, CursorPosition { x: 2, y: 0 });
}

#[test]
fn backspace_at_column_zero_merges_lines() {
    let mut e = Editor::new();
    set_buffer(&mut e, &["ab", "cd"]);
    e.cursor_position = CursorPosition { x: 0, y: 1 };
    e.backspace();
    assert_eq!(buffer_strings(&e), vec!["abcd".to_string()]);
    assert_eq!(e.cursor_position, CursorPosition { x: 2, y: 0 });
}

#[test]
fn backspace_removes_char_before_cursor() {
    let mut e = Editor::new();
    set_buffer(&mut e, &["abc"]);
    e.cursor_position = CursorPosition { x: 2, y: 0 };
    e.backspace();
    assert_eq!(buffer_strings(&e), vec!["ac".to_string()]);
    assert_eq!(e.cursor_position, CursorPosition { x: 1, y: 0 });
}

#[test]
fn backspace_at_origin_is_a_no_op() {
    let mut e = Editor::new();
    set_buffer(&mut e, &["abc", "def"]);
    e.cursor_position = CursorPosition { x: 0, y: 0 };
    e.backspace();
    assert_eq!(buffer_strings(&e), vec!["abc".to_string(), "def".to_string()]);
    assert_eq!(e.cursor_position, CursorPosition { x: 0, y: 0 });
}

#[test]
fn split_line_in_middle() {
    let mut e = Editor::new();
    set_buffer(&mut e, &["hello"]);
    e.cursor_position = CursorPosition { x: 2, y: 0 };
    e.new_line();
    assert_eq!(buffer_strings(&e), vec!["he".to_string(), "llo".to_string()]);
    assert_eq!(e.cursor_position, CursorPosition { x: 0, y: 1 });
}

#[test]
fn split_then_backspace_restores_buffer() {
    let mut e = Editor::new();
    set_buffer(&mut e, &["hello", "world"]);
    e.cursor_position = CursorPosition { x: 3, y: 0 };
    e.new_line();
    e.backspace();
    assert_eq!(buffer_strings(&e), vec!["hello".to_string(), "world".to_string()]);
    assert_eq!(e.cursor_position, CursorPosition { x: 3, y: 0 });
}

#[test]
fn move_left_clamps_at_zero() {
    let mut e = Editor::new();
    set_buffer(&mut e, &["ab"]);
    e.cursor_position = CursorPosition { x: 0, y: 0 };
    e.move_left();
    assert_eq!(e.cursor_position, CursorPosition { x: 0, y: 0 });
    e.cursor_position = CursorPosition { x: 2, y: 0 };
    e.move_left();
    assert_eq!(e.cursor_position, CursorPosition { x: 1, y: 0 });
}

#[test]
fn move_right_clamps_at_line_length() {
    let mut e = Editor::new();
    set_buffer(&mut e, &["ab"]);
    e.cursor_position = CursorPosition { x: 2, y: 0 };
    e.move_right();
    assert_eq!(e.cursor_position, CursorPosition { x: 2, y: 0 });
    e.cursor_position = CursorPosition { x: 1, y: 0 };
    e.move_right();
    assert_eq!(e.cursor_position, CursorPosition { x: 2, y: 0 });
}

#[test]
fn move_up_clamps_column_to_shorter_line() {
    let mut e = Editor::new();
    set_buffer(&mut e, &["ab", "hello"]);
    e.cursor_position = CursorPosition { x: 5, y: 1 };
    e.move_up();
    assert_eq!(e.cursor_position, CursorPosition { x: 2, y: 0 });
    assert!(e.cursor_position.x <= e.buffer[e.cursor_position.y].len());
}

#[test]
fn move_up_at_first_row_is_a_no_op() {
    let mut e = Editor::new();
    set_buffer(&mut e, &["ab", "cd"]);
    e.cursor_position = CursorPosition { x: 1, y: 0 };
    e.move_up();
    assert_eq!(e.cursor_position, CursorPosition { x: 1, y: 0 });
}

#[test]
fn move_down_clamps_column_to_shorter_line() {
    let mut e = Editor::new();
    set_buffer(&mut e, &["hello", "ab"]);
    e.cursor_position = CursorPosition { x: 5, y: 0 };
    e.move_down();
    assert_eq!(e.cursor_position, CursorPosition { x: 2, y: 1 });
    assert!(e.cursor_position.x <= e.buffer[e.cursor_position.y].len());
}

#[test]
fn move_down_at_last_row_is_a_no_op() {
    let mut e = Editor::new();
    set_buffer(&mut e, &["ab", "cd"]);
    e.cursor_position = CursorPosition { x: 1, y: 1 };
    e.move_down();
    assert_eq!(e.cursor_position, CursorPosition { x: 1, y: 1 });
}

#[test]
fn move_down_keeps_column_on_longer_line() {
    let mut e = Editor::new();
    set_buffer(&mut e, &["ab", "hello"]);
    e.cursor_position = CursorPosition { x: 2, y: 0 };
    e.move_down();
    assert_eq!(e.cursor_position, CursorPosition { x: 2, y: 1 });
}

#[test]
fn load_text_replaces_buffer_and_resets_cursor() {
    let mut e = Editor::new();
    e.cursor_position = CursorPosition { x: 0, y: 0 };
    e.modified = true;
    e.load_text(chars("notes.txt"), &chars("one\ntwo"));
    assert_eq!(buffer_strings(&e), vec!["one".to_string(), "two".to_string()]);
    assert_eq!(e.cursor_position, CursorPosition { x: 0, y: 0 });
    assert_eq!(e.filename, Some(chars("notes.txt")));
    assert!(!e.modified);
}
