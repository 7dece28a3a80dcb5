use mutxt::editor::{CursorDirection, Editor};
use mutxt::render::{style_of, VERSION};
use mutxt::row::HighlightType;

const HIDE: &str = "\x1b[?25l";
const SHOW: &str = "\x1b[?25h";
const HOME: &str = "\x1b[1;1H";
const CLEAR: &str = "\x1b[J";
const INVERT: &str = "\x1b[7m";
const RESET: &str = "\x1b[m";
const WHITE: &str = "\x1b[38;5;7m";

fn opened(lines: &[&str], text_rows: usize, cols: usize) -> Editor {
    let mut editor = Editor::new(text_rows + 3, cols);
    editor.open_file("test.txt", lines.iter().map(|l| l.to_string()).collect());
    editor
}

fn white(text: &str) -> String {
    text.chars().map(|c| format!("{}{}", WHITE, c)).collect()
}

#[test]
fn version_is_the_package_version() {
    assert_eq!(VERSION, "0.1.0");
}

#[test]
fn style_of_maps_each_tag_to_its_sequences() {
    assert_eq!(style_of(HighlightType::Normal), "\x1b[38;5;7m");
    assert_eq!(style_of(HighlightType::NonPrint), "\x1b[39m\x1b[49m");
    assert_eq!(style_of(HighlightType::Comment), "\x1b[38;5;6m");
    assert_eq!(style_of(HighlightType::Keyword), "\x1b[38;5;5m");
    assert_eq!(style_of(HighlightType::String), "\x1b[38;5;2m");
    assert_eq!(style_of(HighlightType::Number), "\x1b[38;5;4m");
    assert_eq!(style_of(HighlightType::Selection), "\x1b[48;5;8m\x1b[38;5;7m");
}

#[test]
fn render_of_an_empty_document_shows_the_banner() {
    let editor = Editor::new(5, 60);
    let expected = format!(
        "{HIDE}{HOME}~{pad}mutxt version \x1b[1m0.1.0{RESET}\r\n~{CLEAR}\r\n\
         {CLEAR}{INVERT}{CLEAR}(no file) - 0 lines{gap}1/0{RESET}\r\n{HOME}{SHOW}",
        pad = " ".repeat(15),
        gap = " ".repeat(38),
    );
    assert_eq!(editor.render(), expected);
}

#[test]
fn render_puts_the_banner_a_third_down_the_window() {
    let editor = Editor::new(12, 60);
    let out = editor.render();
    let lines: Vec<&str> = out.split("\r\n").collect();
    assert_eq!(lines.len(), 11);
    assert_eq!(lines[0], format!("{HIDE}{HOME}~{CLEAR}"));
    assert_eq!(lines[1], format!("~{CLEAR}"));
    assert_eq!(lines[2], format!("~{CLEAR}"));
    assert_eq!(lines[3], format!("~{}mutxt version \x1b[1m0.1.0{RESET}", " ".repeat(15)));
    for y in 4..9 {
        assert_eq!(lines[y], format!("~{CLEAR}"));
    }
}

#[test]
fn render_of_the_banner_in_a_narrow_window_has_no_padding() {
    let editor = Editor::new(4, 10);
    let expected = format!(
        "{HIDE}{HOME}~mutxt version \x1b[1m0.1.0{RESET}\r\n\
         {CLEAR}{INVERT}{CLEAR}(no file) - 0 lines1/0{RESET}\r\n{HOME}{SHOW}"
    );
    assert_eq!(editor.render(), expected);
}

#[test]
fn render_draws_rows_status_message_and_cursor() {
    let mut editor = opened(&["a\tb", "xyz"], 2, 20);
    editor.display_status("hi");
    editor.move_cursor(CursorDirection::Right);
    editor.move_cursor(CursorDirection::Right);
    let expected = format!(
        "{HIDE}{HOME}{row0}{WHITE}{CLEAR}\r\n{row1}{WHITE}{CLEAR}\r\n\
         {CLEAR}{INVERT}{CLEAR}test.txt - 2 lines1/2{RESET}\r\nhi\r\n\x1b[1;4H{SHOW}",
        row0 = white("a    b"),
        row1 = white("xyz"),
    );
    assert_eq!(editor.render(), expected);
}

#[test]
fn render_marks_lines_below_the_document() {
    let editor = opened(&["x"], 3, 40);
    let expected = format!(
        "{HIDE}{HOME}{row0}{WHITE}{CLEAR}\r\n~{CLEAR}\r\n~{CLEAR}\r\n\
         {CLEAR}{INVERT}{CLEAR}test.txt - 1 lines{gap}1/1{RESET}\r\n{HOME}{SHOW}",
        row0 = white("x"),
        gap = " ".repeat(40 - 18 - 3),
    );
    assert_eq!(editor.render(), expected);
}

#[test]
fn render_shows_the_window_columns_only() {
    let mut editor = opened(&["abcdefgh", "ab"], 2, 4);
    for _ in 0..6 {
        editor.move_cursor(CursorDirection::Right);
    }
    assert_eq!((editor.col_offset(), editor.cursor_x()), (3, 3));
    let expected = format!(
        "{HIDE}{HOME}{row0}{WHITE}{CLEAR}\r\n{WHITE}{CLEAR}\r\n\
         {CLEAR}{INVERT}{CLEAR}test.txt - 2 lines1/2{RESET}\r\n\x1b[1;4H{SHOW}",
        row0 = white("defg"),
    );
    assert_eq!(editor.render(), expected);
}

#[test]
fn render_tells_a_modified_document_and_the_cursor_row() {
    let mut editor = opened(&["ab", "cd"], 2, 40);
    editor.move_cursor(CursorDirection::Down);
    editor.insert_char('x');
    let expected = format!(
        "{HIDE}{HOME}{row0}{WHITE}{CLEAR}\r\n{row1}{WHITE}{CLEAR}\r\n\
         {CLEAR}{INVERT}{CLEAR}test.txt (modified) - 2 lines{gap}2/2{RESET}\r\n\x1b[2;2H{SHOW}",
        row0 = white("ab"),
        row1 = white("xcd"),
        gap = " ".repeat(40 - 29 - 3),
    );
    assert_eq!(editor.render(), expected);
}

#[test]
fn render_scrolls_the_rows_with_the_window() {
    let mut editor = opened(&["r0", "r1", "r2", "r3"], 2, 40);
    for _ in 0..3 {
        editor.move_cursor(CursorDirection::Down);
    }
    assert_eq!((editor.row_offset(), editor.cursor_y()), (2, 1));
    let expected = format!(
        "{HIDE}{HOME}{row2}{WHITE}{CLEAR}\r\n{row3}{WHITE}{CLEAR}\r\n\
         {CLEAR}{INVERT}{CLEAR}test.txt - 4 lines{gap}4/4{RESET}\r\n\x1b[2;1H{SHOW}",
        row2 = white("r2"),
        row3 = white("r3"),
        gap = " ".repeat(40 - 18 - 3),
    );
    assert_eq!(editor.render(), expected);
}

#[test]
fn render_moves_the_cursor_to_the_next_tab_stop() {
    let mut editor = opened(&["\t\tab\tc"], 1, 40);
    let mut columns = Vec::new();
    for _ in 0..6 {
        editor.move_cursor(CursorDirection::Right);
        let out = editor.render();
        let tail = out.rsplit("\x1b[1;").next().unwrap().to_string();
        columns.push(tail);
    }
    let expected: Vec<String> =
        [4, 8, 9, 10, 12, 13].iter().map(|c| format!("{}H{}", c, SHOW)).collect();
    assert_eq!(columns, expected);
}

#[test]
fn render_writes_numbers_in_decimal() {
    let lines: Vec<String> = (0..120).map(|i| format!("{}", i)).collect();
    let mut editor = Editor::new(4, 40);
    editor.open_file("n", lines);
    for _ in 0..104 {
        editor.move_cursor(CursorDirection::Down);
    }
    let out = editor.render();
    assert!(out.contains(&format!("n - 120 lines{}105/120{}", " ".repeat(40 - 13 - 7), RESET)));
    assert!(out.starts_with(&format!("{HIDE}{HOME}{}{WHITE}{CLEAR}\r\n", white("104"))));
}
