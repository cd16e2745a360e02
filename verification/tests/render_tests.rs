use hecto::document::Document;
use hecto::editor::{Editor, Position, Size};
use hecto::row::Row;
use hecto::text::{decimal_string, prefix_chars, spaces};

fn doc_from(lines: &[&str]) -> Document {
    let mut rows = Vec::new();
    for line in lines {
        rows.push(Row::new((*line).to_string()));
    }
    Document::from_rows(rows)
}

fn size(width: u16, height: u16) -> Size {
    Size { width, height }
}

#[test]
fn render_clips_to_row_bounds() {
    let row = Row::new("hello".to_string());
    assert_eq!(row.render(0, 5), "hello");
    assert_eq!(row.render(1, 99), "ello");
    assert_eq!(row.render(9, 12), "");
    assert_eq!(row.render(3, 2), "");
    assert_eq!(row.render(0, 0), "");
    assert_eq!(row.len(), 5);
    assert!(!row.is_empty());
    assert!(Row::new(String::new()).is_empty());
}

#[test]
fn draw_rows_windows_each_row() {
    let mut editor = Editor::new(doc_from(&["abcdefghij", "klmno"]));
    editor.offset = Position { x: 2, y: 0 };
    let lines = editor.draw_rows(size(3, 3));
    assert_eq!(lines, vec!["cde".to_string(), "mno".to_string(), "~".to_string()]);
}

#[test]
fn rows_past_a_nonempty_document_show_tildes_only() {
    let editor = Editor::new(doc_from(&["a"]));
    let lines = editor.draw_rows(size(80, 4));
    assert_eq!(lines, vec!["a", "~", "~", "~"]);
}

#[test]
fn status_bar_without_file_name() {
    let editor = Editor::default();
    let line = editor.draw_status_bar(size(30, 24));
    assert_eq!(line, format!("[No Name] - 0 lines{}", " ".repeat(11)));
}

#[test]
fn status_bar_truncates_long_file_name() {
    let mut editor = Editor::new(doc_from(&["a", "b", "c"]));
    editor.document.file_name = Some("a_very_long_file_name_more.txt".to_string());
    let line = editor.draw_status_bar(size(30, 24));
    assert_eq!(line, "a_very_long_file_nam - 3 lines");
}

#[test]
fn status_bar_truncates_to_screen_width() {
    let editor = Editor::default();
    let line = editor.draw_status_bar(size(9, 24));
    assert_eq!(line, "[No Name]");
}

#[test]
fn message_bar_is_cleared() {
    let editor = Editor::default();
    assert_eq!(editor.draw_message_bar(), "");
}

#[test]
fn frame_places_the_terminal_cursor() {
    let mut editor = Editor::new(doc_from(&["abcdefghij", "klmno", "p"]));
    editor.cursor_position = Position { x: 7, y: 2 };
    editor.offset = Position { x: 3, y: 1 };
    let frame = editor.refresh_screen(size(5, 2));
    assert_eq!(frame.cursor, Position { x: 4, y: 1 });
    assert_eq!(frame.lines.len(), 4);
}

#[test]
fn decimal_strings_are_exact() {
    assert_eq!(decimal_string(0), "0");
    assert_eq!(decimal_string(9), "9");
    assert_eq!(decimal_string(10), "10");
    assert_eq!(decimal_string(907), "907");
    assert_eq!(decimal_string(65535), "65535");
}

#[test]
fn text_helpers_behave() {
    assert_eq!(spaces(0), "");
    assert_eq!(spaces(3), "   ");
    assert_eq!(prefix_chars("hello", 2), "he");
    assert_eq!(prefix_chars("hello", 9), "hello");
}
