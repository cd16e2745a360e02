use hecto::document::Document;
use hecto::editor::{Editor, Key, Position, Size};
use hecto::row::Row;

fn doc_from(lines: &[&str]) -> Document {
    let mut rows = Vec::new();
    for line in lines {
        rows.push(Row::new((*line).to_string()));
    }
    Document::from_rows(rows)
}

fn size(width: u16, height: u16) -> Size {
    Size { width, height }
}

#[test]
fn down_twice_scrolls_minimally() {
    // Three rows of lengths [10, 0, 5] on a two-row screen: after two Downs
    // the cursor is at (0, 2) and the offset has scrolled to row 1, the
    // minimum that keeps row 2 visible.
    let mut editor = Editor::new(doc_from(&["0123456789", "", "abcde"]));
    let s = size(80, 2);
    editor.process_keypress(Key::Down, s);
    assert_eq!(editor.cursor_position, Position { x: 0, y: 1 });
    assert_eq!(editor.offset, Position { x: 0, y: 0 });
    editor.process_keypress(Key::Down, s);
    assert_eq!(editor.cursor_position, Position { x: 0, y: 2 });
    assert_eq!(editor.offset.y, 1);
    assert_eq!(editor.offset.x, 0);
}

#[test]
fn empty_document_banners() {
    // An empty document on an 80x24 terminal: the informational banner on
    // screen row 1, the welcome banner centered on screen row 24 / 3 = 8.
    let editor = Editor::default();
    let frame = editor.refresh_screen(size(80, 24));
    assert!(!frame.quit);
    assert_eq!(frame.lines.len(), 26);
    assert_eq!(frame.lines[0], "~");
    assert_eq!(frame.lines[1], "width: 80, height: 24");
    let expected = format!("~{}Hecto editor -- version 0.1.0", " ".repeat(24));
    assert_eq!(frame.lines[8], expected);
    assert_eq!(frame.lines[7], "~");
    assert_eq!(frame.lines[9], "~");
    assert_eq!(frame.cursor, Position { x: 0, y: 0 });
}

#[test]
fn welcome_banner_truncates_on_narrow_screen() {
    let editor = Editor::default();
    let frame = editor.refresh_screen(size(10, 24));
    assert_eq!(frame.lines[8], "~Hecto edi");
}

#[test]
fn vertical_move_clamps_to_shorter_row() {
    // Column 9 on a row of length 10; moving down onto a row of length 5
    // clamps the column to 5.
    let mut editor = Editor::new(doc_from(&["0123456789", "abcde"]));
    let s = size(80, 24);
    for _ in 0..9 {
        editor.process_keypress(Key::Right, s);
    }
    assert_eq!(editor.cursor_position, Position { x: 9, y: 0 });
    editor.process_keypress(Key::Down, s);
    assert_eq!(editor.cursor_position, Position { x: 5, y: 1 });
}

#[test]
fn left_wraps_to_end_of_previous_row() {
    let mut editor = Editor::new(doc_from(&["abc", "xy"]));
    let s = size(80, 24);
    editor.process_keypress(Key::Down, s);
    assert_eq!(editor.cursor_position, Position { x: 0, y: 1 });
    editor.process_keypress(Key::Left, s);
    assert_eq!(editor.cursor_position, Position { x: 3, y: 0 });
}

#[test]
fn right_wraps_to_start_of_next_row() {
    let mut editor = Editor::new(doc_from(&["abc", "xy"]));
    let s = size(80, 24);
    editor.process_keypress(Key::End, s);
    assert_eq!(editor.cursor_position, Position { x: 3, y: 0 });
    editor.process_keypress(Key::Right, s);
    assert_eq!(editor.cursor_position, Position { x: 0, y: 1 });
}

#[test]
fn left_at_origin_is_a_no_op() {
    let mut editor = Editor::new(doc_from(&["abc"]));
    editor.process_keypress(Key::Left, size(80, 24));
    assert_eq!(editor.cursor_position, Position { x: 0, y: 0 });
}

#[test]
fn page_down_clamps_at_row_count() {
    let mut editor = Editor::new(doc_from(&["a", "b", "c"]));
    let s = size(80, 10);
    editor.process_keypress(Key::PageDown, s);
    assert_eq!(editor.cursor_position.y, 3);
    editor.process_keypress(Key::PageDown, s);
    assert_eq!(editor.cursor_position.y, 3);
}

#[test]
fn page_up_clamps_at_zero() {
    let mut editor = Editor::new(doc_from(&["a", "b", "c"]));
    let s = size(80, 10);
    editor.process_keypress(Key::PageDown, s);
    editor.process_keypress(Key::PageUp, s);
    assert_eq!(editor.cursor_position.y, 0);
}

#[test]
fn page_moves_jump_by_screen_height() {
    let lines: Vec<String> = (0..30).map(|i| i.to_string()).collect();
    let refs: Vec<&str> = lines.iter().map(|s| s.as_str()).collect();
    let mut editor = Editor::new(doc_from(&refs));
    let s = size(80, 10);
    editor.process_keypress(Key::PageDown, s);
    assert_eq!(editor.cursor_position.y, 10);
    editor.process_keypress(Key::PageDown, s);
    assert_eq!(editor.cursor_position.y, 20);
    editor.process_keypress(Key::PageUp, s);
    assert_eq!(editor.cursor_position.y, 10);
}

#[test]
fn movement_on_empty_document_stays_at_origin() {
    let mut editor = Editor::default();
    let s = size(80, 24);
    for key in [Key::Up, Key::Down, Key::Left, Key::Right, Key::End, Key::Home] {
        editor.process_keypress(key, s);
        assert_eq!(editor.cursor_position, Position { x: 0, y: 0 });
    }
}

#[test]
fn scroll_moves_back_up_and_left() {
    let mut editor = Editor::new(doc_from(&["abcdefghij"]));
    editor.offset = Position { x: 5, y: 5 };
    editor.scroll(size(10, 10));
    assert_eq!(editor.offset, Position { x: 0, y: 0 });
}

#[test]
fn scroll_keeps_visible_cursor_in_place() {
    let mut editor = Editor::new(doc_from(&["abcdefghij"]));
    editor.cursor_position = Position { x: 4, y: 0 };
    editor.offset = Position { x: 2, y: 0 };
    editor.scroll(size(5, 5));
    assert_eq!(editor.offset, Position { x: 2, y: 0 });
}

#[test]
fn quit_key_stops_the_script() {
    let mut editor = Editor::new(doc_from(&["a", "b", "c"]));
    let keys = vec![Key::Down, Key::Ctrl('q'), Key::Down, Key::Down];
    editor.run(&keys, size(80, 24));
    assert!(editor.should_quit);
    assert_eq!(editor.cursor_position, Position { x: 0, y: 1 });
}

#[test]
fn script_without_quit_processes_every_key() {
    let mut editor = Editor::new(doc_from(&["abc", "de", "f"]));
    let keys = vec![Key::Down, Key::Down, Key::End];
    editor.run(&keys, size(80, 24));
    assert!(!editor.should_quit);
    assert_eq!(editor.cursor_position, Position { x: 1, y: 2 });
}

#[test]
fn other_keys_change_nothing() {
    let mut editor = Editor::new(doc_from(&["abc"]));
    let s = size(80, 24);
    editor.process_keypress(Key::Char('z'), s);
    editor.process_keypress(Key::Ctrl('x'), s);
    editor.process_keypress(Key::Other, s);
    assert!(!editor.should_quit);
    assert_eq!(editor.cursor_position, Position { x: 0, y: 0 });
}

#[test]
fn goodbye_frame_after_quit() {
    let mut editor = Editor::default();
    editor.process_keypress(Key::Ctrl('q'), size(80, 24));
    assert!(editor.should_quit);
    let frame = editor.refresh_screen(size(80, 24));
    assert!(frame.quit);
    assert_eq!(frame.lines, vec!["Goodbye.".to_string()]);
    assert_eq!(frame.cursor, Position { x: 0, y: 0 });
}
